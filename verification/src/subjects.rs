//! The subject commands: which roles a member gains or loses, what the
//! reply says, and which study groups count for a member.

use crate::ids::RoleId;
use crate::prompts::role_mention;
use crate::records::{DatabaseSemesterStudyGroup, DatabaseSubject};
use crate::text::{push_decimal, str_eq};
use crate::validate::contains_role;
use vstd::prelude::*;

verus! {

pub const NOT_VERIFIED: &'static str = "You need to be verified for this command";

pub const NO_SUBJECT_GIVEN: &'static str =
    "You need to supply at least one subject id / name (from \"subject show\")";

pub const IGNORING_PRESENT: &'static str = "Ignoring subjects that you already have:\n";

pub const ADDED: &'static str = "Added following subjects to you:\n";

pub const IGNORING_MISSING: &'static str = "Ignoring subjects that you don't have:\n";

pub const REMOVING: &'static str = "Removing subjects:\n";

pub const SUBJECT_CREATED: &'static str = "Created subject";

pub const SUBJECT_NOT_CREATED: &'static str =
    "Didn't create subject, was it already in the database?";

pub const SUBJECT_NOT_DELETED: &'static str = "Didn't delete subject, was it already deleted?";

pub const SUBJECT_NOT_FOUND: &'static str =
    "Could not find subject for this role, is this a subject?";

pub const QUERY_FAILED: &'static str = "Error while trying to execute query";

/// The texts of `parts` with `separator` between each two of them.
pub open spec fn joined(parts: Seq<Seq<char>>, separator: Seq<char>) -> Seq<char>
    decreases parts.len(),
{
    if parts.len() == 0 {
        Seq::<char>::empty()
    } else if parts.len() == 1 {
        parts[0]
    } else {
        joined(parts.drop_last(), separator) + separator + parts.last()
    }
}

/// The characters of each of `parts`.
pub open spec fn texts(parts: Seq<String>) -> Seq<Seq<char>> {
    parts.map_values(|part: String| part@)
}

/// Calls `Itertools::join` on the strings of `parts`: the first string,
/// then for each further one the separator and that string; the empty
/// string for no parts.
#[verifier::external_body]
fn join(parts: &Vec<String>, separator: &str) -> (text: String)
    ensures
        text@ == joined(texts(parts@), separator@),
{
    itertools::Itertools::join(&mut parts.iter(), separator)
}

/// The mentions of `roles`.
pub open spec fn mentions(roles: Seq<RoleId>) -> Seq<Seq<char>> {
    roles.map_values(|role: RoleId| role_mention(role))
}

/// The mentions of `roles`, one on each line.
pub fn role_lines(roles: &Vec<RoleId>) -> (text: String)
    ensures
        text@ == joined(mentions(roles@), "\n"@),
{
    let mut parts: Vec<String> = Vec::new();
    let mut index: usize = 0;
    while index < roles.len()
        invariant
            index <= roles.len(),
            texts(parts@) == mentions(roles@.subrange(0, index as int)),
        decreases roles.len() - index,
    {
        let mut mention = String::from_str("<@&");
        push_decimal(&mut mention, roles[index].get());
        mention.append(">");
        assert(mention@ =~= role_mention(roles@[index as int]));
        let ghost before = parts@;
        parts.push(mention);
        assert(texts(parts@) =~= texts(before).push(mention@));
        assert(mentions(roles@.subrange(0, index + 1)) =~= mentions(
            roles@.subrange(0, index as int),
        ).push(role_mention(roles@[index as int])));
        index = index + 1;
    }
    assert(roles@.subrange(0, index as int) =~= roles@);
    join(&parts, "\n")
}

/// Why a request for subjects is turned down before any is looked up:
/// the member is not verified, or names no subject.
pub fn request_refusal(verified: bool, requested: usize) -> (refusal: Option<&'static str>)
    ensures
        refusal == (if !verified {
            Some(NOT_VERIFIED)
        } else if requested == 0 {
            Some(NO_SUBJECT_GIVEN)
        } else {
            None::<&'static str>
        }),
{
    if !verified {
        Some(NOT_VERIFIED)
    } else if requested == 0 {
        Some(NO_SUBJECT_GIVEN)
    } else {
        None
    }
}

/// Splits `roles` into those that the member holds and those that the
/// member lacks; both keep the order of `roles`.
pub fn partition_roles(roles: &Vec<RoleId>, member_roles: &Vec<RoleId>) -> (split: (
    Vec<RoleId>,
    Vec<RoleId>,
))
    ensures
        split.0@ == roles@.filter(|role: RoleId| member_roles@.contains(role)),
        split.1@ == roles@.filter(|role: RoleId| !member_roles@.contains(role)),
{
    let mut present: Vec<RoleId> = Vec::new();
    let mut missing: Vec<RoleId> = Vec::new();
    let ghost held = |role: RoleId| member_roles@.contains(role);
    let ghost lacked = |role: RoleId| !member_roles@.contains(role);
    let mut index: usize = 0;
    assert(roles@.subrange(0, 0) =~= Seq::<RoleId>::empty());
    while index < roles.len()
        invariant
            index <= roles.len(),
            held == |role: RoleId| member_roles@.contains(role),
            lacked == |role: RoleId| !member_roles@.contains(role),
            present@ == roles@.subrange(0, index as int).filter(held),
            missing@ == roles@.subrange(0, index as int).filter(lacked),
        decreases roles.len() - index,
    {
        let role = roles[index];
        proof {
            let before = roles@.subrange(0, index as int);
            let now = roles@.subrange(0, index + 1);
            assert(now.drop_last() =~= before);
            assert(now.last() == role);
            reveal(Seq::filter);
        }
        if contains_role(member_roles, role) {
            present.push(role);
        } else {
            missing.push(role);
        }
        index = index + 1;
    }
    assert(roles@.subrange(0, index as int) =~= roles@);
    (present, missing)
}

/// The reply to `subject add`: the subjects that the member had already,
/// then the subjects that were added.
pub open spec fn add_reply(present: Seq<RoleId>, missing: Seq<RoleId>) -> Seq<char> {
    (if present.len() > 0 {
        IGNORING_PRESENT@ + joined(mentions(present), "\n"@) + "\n"@
    } else {
        Seq::<char>::empty()
    }) + (if missing.len() > 0 {
        ADDED@ + joined(mentions(missing), "\n"@)
    } else {
        Seq::<char>::empty()
    })
}

/// Decides on `subject add` for a member with the roles `member_roles`
/// who asks for the subjects with the roles `requested`. Returns the roles
/// to give to the member, which are the requested ones that the member
/// lacks, and the reply.
pub fn add(requested: &Vec<RoleId>, member_roles: &Vec<RoleId>) -> (decision: (Vec<RoleId>, String))
    ensures
        decision.0@ == requested@.filter(|role: RoleId| !member_roles@.contains(role)),
        decision.1@ == add_reply(
            requested@.filter(|role: RoleId| member_roles@.contains(role)),
            requested@.filter(|role: RoleId| !member_roles@.contains(role)),
        ),
{
    let (present, missing) = partition_roles(requested, member_roles);
    let mut message = String::new();
    if present.len() > 0 {
        message.append(IGNORING_PRESENT);
        let lines = role_lines(&present);
        message.append(lines.as_str());
        message.append("\n");
    }
    if missing.len() > 0 {
        message.append(ADDED);
        let lines = role_lines(&missing);
        message.append(lines.as_str());
    }
    assert(message@ =~= add_reply(present@, missing@));
    (missing, message)
}

/// The reply to `subject remove`: the subjects that the member did not
/// have, then the subjects that were removed.
pub open spec fn remove_reply(present: Seq<RoleId>, missing: Seq<RoleId>) -> Seq<char> {
    (if missing.len() > 0 {
        IGNORING_MISSING@ + joined(mentions(missing), "\n"@)
    } else {
        Seq::<char>::empty()
    }) + (if present.len() > 0 {
        REMOVING@ + joined(mentions(present), "\n"@) + "\n"@
    } else {
        Seq::<char>::empty()
    })
}

/// Decides on `subject remove` for a member with the roles `member_roles`
/// who names the subjects with the roles `requested`. Returns the roles to
/// take from the member, which are the requested ones that the member
/// holds, and the reply.
pub fn remove(requested: &Vec<RoleId>, member_roles: &Vec<RoleId>) -> (decision: (
    Vec<RoleId>,
    String,
))
    ensures
        decision.0@ == requested@.filter(|role: RoleId| member_roles@.contains(role)),
        decision.1@ == remove_reply(
            requested@.filter(|role: RoleId| member_roles@.contains(role)),
            requested@.filter(|role: RoleId| !member_roles@.contains(role)),
        ),
{
    let (present, missing) = partition_roles(requested, member_roles);
    let mut message = String::new();
    if missing.len() > 0 {
        message.append(IGNORING_MISSING);
        let lines = role_lines(&missing);
        message.append(lines.as_str());
    }
    if present.len() > 0 {
        message.append(REMOVING);
        let lines = role_lines(&present);
        message.append(lines.as_str());
        message.append("\n");
    }
    assert(message@ =~= remove_reply(present@, missing@));
    (present, message)
}

/// The place of the first of `groups` whose role is among `user_roles`,
/// from place `from` on; the length of `groups` if there is none.
pub open spec fn first_group_of(
    groups: Seq<DatabaseSemesterStudyGroup>,
    user_roles: Seq<RoleId>,
    from: int,
) -> int
    decreases groups.len() - from,
{
    if from < 0 || from >= groups.len() {
        groups.len() as int
    } else if user_roles.contains(groups[from].role) {
        from
    } else {
        first_group_of(groups, user_roles, from + 1)
    }
}

/// The semester study group that a member is in: the first of `groups`
/// whose role the member holds.
pub fn user_semester_study_group(
    groups: &Vec<DatabaseSemesterStudyGroup>,
    user_roles: &Vec<RoleId>,
) -> (found: Option<DatabaseSemesterStudyGroup>)
    ensures
        found == (if first_group_of(groups@, user_roles@, 0) < groups@.len() {
            Some(groups@[first_group_of(groups@, user_roles@, 0)])
        } else {
            None::<DatabaseSemesterStudyGroup>
        }),
{
    let mut index: usize = 0;
    while index < groups.len()
        invariant
            index <= groups.len(),
            first_group_of(groups@, user_roles@, 0) == first_group_of(
                groups@,
                user_roles@,
                index as int,
            ),
        decreases groups.len() - index,
    {
        if contains_role(user_roles, groups[index].role) {
            return Some(groups[index]);
        }
        index = index + 1;
    }
    None
}

/// Those of `groups` that are in `semester` or in an earlier one, in the
/// order of `groups`. These are the semesters whose subjects are open to a
/// member of `semester`.
pub fn up_to_semester(groups: &Vec<DatabaseSemesterStudyGroup>, semester: u32) -> (open: Vec<
    DatabaseSemesterStudyGroup,
>)
    ensures
        open@ == groups@.filter(|group: DatabaseSemesterStudyGroup| group.semester <= semester),
{
    let mut open: Vec<DatabaseSemesterStudyGroup> = Vec::new();
    let ghost earlier = |group: DatabaseSemesterStudyGroup| group.semester <= semester;
    let mut index: usize = 0;
    assert(groups@.subrange(0, 0) =~= Seq::<DatabaseSemesterStudyGroup>::empty());
    while index < groups.len()
        invariant
            index <= groups.len(),
            earlier == |group: DatabaseSemesterStudyGroup| group.semester <= semester,
            open@ == groups@.subrange(0, index as int).filter(earlier),
        decreases groups.len() - index,
    {
        let group = groups[index];
        proof {
            let before = groups@.subrange(0, index as int);
            let now = groups@.subrange(0, index + 1);
            assert(now.drop_last() =~= before);
            assert(now.last() == group);
            reveal(Seq::filter);
        }
        if group.semester <= semester {
            open.push(group);
        }
        index = index + 1;
    }
    assert(groups@.subrange(0, index as int) =~= groups@);
    open
}

/// The place of the first of `subjects` called `name`, from place `from`
/// on; the length of `subjects` if there is none.
pub open spec fn first_named(subjects: Seq<DatabaseSubject>, name: Seq<char>, from: int) -> int
    decreases subjects.len() - from,
{
    if from < 0 || from >= subjects.len() {
        subjects.len() as int
    } else if subjects[from].name@ == name {
        from
    } else {
        first_named(subjects, name, from + 1)
    }
}

/// The place of the first of `subjects` that is called `name`.
pub fn find_by_name(subjects: &Vec<DatabaseSubject>, name: &str) -> (found: Option<usize>)
    ensures
        match found {
            Some(index) => index == first_named(subjects@, name@, 0) && index < subjects@.len(),
            None => first_named(subjects@, name@, 0) == subjects@.len(),
        },
{
    let mut index: usize = 0;
    while index < subjects.len()
        invariant
            index <= subjects.len(),
            first_named(subjects@, name@, 0) == first_named(subjects@, name@, index as int),
        decreases subjects.len() - index,
    {
        if str_eq(subjects[index].name.as_str(), name) {
            return Some(index);
        }
        index = index + 1;
    }
    None
}

/// Why a subject called `name` is not created: the guild has one of that
/// name already. `None` if the name is free.
pub fn create_refusal(subjects: &Vec<DatabaseSubject>, name: &str) -> (refusal: Option<String>)
    ensures
        match refusal {
            Some(message) => first_named(subjects@, name@, 0) < subjects@.len() && message@
                == "Found subject with same name/role/text channel: "@ + name@,
            None => first_named(subjects@, name@, 0) == subjects@.len(),
        },
{
    match find_by_name(subjects, name) {
        Some(index) => {
            let mut message = String::from_str("Found subject with same name/role/text channel: ");
            message.append(subjects[index].name.as_str());
            proof {
                lemma_first_named(subjects@, name@, 0);
            }
            Some(message)
        },
        None => None,
    }
}

/// What `first_named` finds.
pub proof fn lemma_first_named(subjects: Seq<DatabaseSubject>, name: Seq<char>, from: int)
    requires
        0 <= from <= subjects.len(),
    ensures
        from <= first_named(subjects, name, from) <= subjects.len(),
        first_named(subjects, name, from) < subjects.len() ==> subjects[first_named(
            subjects,
            name,
            from,
        )].name@ == name,
    decreases subjects.len() - from,
{
    if from < subjects.len() && subjects[from].name@ != name {
        lemma_first_named(subjects, name, from + 1);
    }
}

/// The report on the creation of a subject. `stored` is the answer of the
/// storage: `None` if it failed, else whether a record was written.
pub fn created(stored: Option<bool>) -> (message: &'static str)
    ensures
        message == (match stored {
            Some(true) => SUBJECT_CREATED,
            Some(false) => SUBJECT_NOT_CREATED,
            None => QUERY_FAILED,
        }),
{
    match stored {
        Some(true) => SUBJECT_CREATED,
        Some(false) => SUBJECT_NOT_CREATED,
        None => QUERY_FAILED,
    }
}

/// The report on the deletion of the subject called `name`.
pub open spec fn deleted_text(name: Seq<char>, stored: Option<bool>) -> Seq<char> {
    match stored {
        Some(true) => "Deleted subject "@ + name,
        Some(false) => SUBJECT_NOT_DELETED@,
        None => QUERY_FAILED@,
    }
}

/// The report on the deletion of the subject called `name`. `stored` is
/// the answer of the storage: `None` if it failed, else whether a record
/// was removed.
pub fn deleted(name: &str, stored: Option<bool>) -> (message: String)
    ensures
        message@ == deleted_text(name@, stored),
{
    match stored {
        Some(true) => {
            let mut message = String::from_str("Deleted subject ");
            message.append(name);
            message
        },
        Some(false) => String::from_str(SUBJECT_NOT_DELETED),
        None => String::from_str(QUERY_FAILED),
    }
}

} // verus!
