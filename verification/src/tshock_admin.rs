//! Administration of a server's TShock database: users, groups and their
//! permissions, and SSC characters.
use vstd::prelude::*;

use crate::auth::{is_admin_role, is_operator_or_admin_role, Auth};
use crate::error::AppError;
use crate::names::{lemma_sort_names, name_le, names_sorted, sort_by_name, sort_names, strings_view};
use crate::paths::{join, path_join};
use crate::text::{
    append, ascii_lower_seq, ascii_lowercase, chars_of, concat3, i64_text, is_ws, owned,
    push_char, signed_decimal, str_eq, trim, trimmed, vec_eq,
};

verus! {

// ───────────────────────── access ─────────────────────────

/// Only admins pass; others get `Forbidden` with `message`.
pub fn require_admin(auth: &Auth, message: &str) -> (r: Result<(), AppError>)
    ensures
        r is Ok <==> is_admin_role(auth.role@),
        r matches Err(e) ==> (e matches AppError::Forbidden(m) && m@ == message@),
{
    if auth.is_admin() {
        Ok(())
    } else {
        Err(AppError::Forbidden(owned(message)))
    }
}

/// Only operators and admins pass; others get `Forbidden` with `message`.
pub fn require_operator(auth: &Auth, message: &str) -> (r: Result<(), AppError>)
    ensures
        r is Ok <==> is_operator_or_admin_role(auth.role@),
        r matches Err(e) ==> (e matches AppError::Forbidden(m) && m@ == message@),
{
    if auth.is_operator_or_admin() {
        Ok(())
    } else {
        Err(AppError::Forbidden(owned(message)))
    }
}

/// A required field of a request body: `BadRequest("Missing '<field>' field")`
/// when it is absent (or not a string).
pub fn required_field(value: Option<String>, field: &str) -> (r: Result<String, AppError>)
    ensures
        value is None <==> r is Err,
        r matches Ok(v) ==> value == Some(v),
        r matches Err(e) ==> (e matches AppError::BadRequest(m) && m@ == "Missing '"@ + field@ + "' field"@),
{
    match value {
        Some(v) => Ok(v),
        None => {
            let m = concat3("Missing '", field, "' field");
            Err(AppError::BadRequest(m))
        },
    }
}

// ───────────────────────── the database ─────────────────────────

/// A server's TShock database: `<data_dir>/servers/<id>/tshock/tshock.sqlite`.
pub fn tshock_db_path(data_dir: &str, server_id: &str) -> (r: String)
    ensures
        r@ == path_join(path_join(path_join(path_join(data_dir@, "servers"@), server_id@), "tshock"@), "tshock.sqlite"@),
{
    let a = join(data_dir, "servers");
    let b = join(a.as_str(), server_id);
    let c = join(b.as_str(), "tshock");
    join(c.as_str(), "tshock.sqlite")
}

/// The error when the database is not there yet.
pub fn missing_database_error() -> (r: AppError)
    ensures
        r matches AppError::NotFound(m) && m@ == "TShock database not found. Start the server at least once to create it."@,
{
    AppError::NotFound(owned("TShock database not found. Start the server at least once to create it."))
}

/// Where a group's permissions are kept: a `GroupPermissions` or a
/// `Permissions` table, or (in old databases) the comma-separated
/// `Commands` column of `Groups`.
#[derive(Debug, Clone, Copy, PartialEq, Eq)]
pub enum PermissionStorage {
    GroupPermissions,
    Permissions,
    CommandsColumn,
    Unsupported,
}

/// The storage in use, by what the database has: `GroupPermissions` first,
/// then `Permissions`, then the `Commands` column.
pub fn permission_storage(has_group_permissions: bool, has_permissions: bool, groups_has_commands: bool) -> (r:
    PermissionStorage)
    ensures
        has_group_permissions ==> r == PermissionStorage::GroupPermissions,
        !has_group_permissions && has_permissions ==> r == PermissionStorage::Permissions,
        !has_group_permissions && !has_permissions && groups_has_commands ==> r == PermissionStorage::CommandsColumn,
        !has_group_permissions && !has_permissions && !groups_has_commands ==> r == PermissionStorage::Unsupported,
{
    if has_group_permissions {
        PermissionStorage::GroupPermissions
    } else if has_permissions {
        PermissionStorage::Permissions
    } else if groups_has_commands {
        PermissionStorage::CommandsColumn
    } else {
        PermissionStorage::Unsupported
    }
}

/// The table name of a permission table.
pub fn permission_table_name(s: PermissionStorage) -> (r: Option<String>)
    ensures
        s == PermissionStorage::GroupPermissions ==> (r matches Some(n) && n@ == "GroupPermissions"@),
        s == PermissionStorage::Permissions ==> (r matches Some(n) && n@ == "Permissions"@),
        (s == PermissionStorage::CommandsColumn || s == PermissionStorage::Unsupported) ==> r is None,
{
    match s {
        PermissionStorage::GroupPermissions => Some(owned("GroupPermissions")),
        PermissionStorage::Permissions => Some(owned("Permissions")),
        _ => None,
    }
}

/// Whether a column of `Groups` is the `Commands` column (ASCII case
/// ignored).
pub fn is_commands_column(name: &str) -> (r: bool)
    ensures
        r == (ascii_lower_seq(name@) == "commands"@),
{
    let lower = ascii_lowercase(&chars_of(name));
    let target = chars_of("commands");
    vec_eq(&lower, &target)
}

/// The error when no permission storage is found.
pub fn no_permission_storage_error() -> (r: AppError)
    ensures
        r matches AppError::DatabaseError(m) && m@ == "No supported TShock permission storage found"@,
{
    AppError::DatabaseError(owned("No supported TShock permission storage found"))
}

// ───────────────────────── the `Commands` column ─────────────────────────

/// `s` split at each `,` (`str::split(',')`): one more piece than commas.
pub open spec fn split_commas(s: Seq<char>) -> Seq<Seq<char>>
    decreases s.len(),
{
    if s.len() == 0 {
        seq![Seq::empty()]
    } else {
        let p = split_commas(s.drop_last());
        if s.last() == ',' {
            p.push(Seq::empty())
        } else {
            p.update(p.len() - 1, p.last().push(s.last()))
        }
    }
}

/// The trimmed pieces that are not empty, in order.
pub open spec fn nonempty_trimmed(pieces: Seq<Seq<char>>) -> Seq<Seq<char>>
    decreases pieces.len(),
{
    if pieces.len() == 0 {
        Seq::empty()
    } else {
        let p = nonempty_trimmed(pieces.drop_last());
        let t = trim(pieces.last());
        if t.len() > 0 {
            p.push(t)
        } else {
            p
        }
    }
}

/// The permissions in a `Commands` value: the comma-separated entries,
/// trimmed, without empty ones.
pub open spec fn parse_permissions(commands: Seq<char>) -> Seq<Seq<char>> {
    nonempty_trimmed(split_commas(commands))
}

/// The permissions joined with `,`.
pub open spec fn join_commas(perms: Seq<Seq<char>>) -> Seq<char>
    decreases perms.len(),
{
    if perms.len() == 0 {
        Seq::empty()
    } else if perms.len() == 1 {
        perms[0]
    } else {
        join_commas(perms.drop_last()) + ","@ + perms.last()
    }
}

proof fn lemma_split_nonempty(s: Seq<char>)
    ensures
        split_commas(s).len() >= 1,
    decreases s.len(),
{
    if s.len() > 0 {
        lemma_split_nonempty(s.drop_last());
    }
}

fn split_on_commas(s: &str) -> (r: Vec<String>)
    ensures
        strings_view(r@) == split_commas(s@),
{
    let v = chars_of(s);
    let mut pieces: Vec<String> = Vec::new();
    let mut cur = String::new();
    let mut i: usize = 0;
    assert(v@.take(0) =~= Seq::<char>::empty());
    assert(strings_view(pieces@).push(cur@) =~= split_commas(v@.take(0)));
    while i < v.len()
        invariant
            i <= v@.len(),
            strings_view(pieces@).push(cur@) == split_commas(v@.take(i as int)),
        decreases v@.len() - i,
    {
        let c = v[i];
        let ghost sp = split_commas(v@.take(i as int));
        assert(v@.take(i + 1).drop_last() =~= v@.take(i as int));
        assert(v@.take(i + 1).last() == c);
        if c == ',' {
            let ghost before = strings_view(pieces@);
            let done = cur;
            pieces.push(done);
            cur = String::new();
            assert(strings_view(pieces@) =~= before.push(done@));
            assert(strings_view(pieces@).push(cur@) =~= sp.push(Seq::empty()));
        } else {
            let ghost before = strings_view(pieces@);
            push_char(&mut cur, c);
            assert(strings_view(pieces@).push(cur@) =~= sp.update(sp.len() - 1, sp.last().push(c)));
        }
        i = i + 1;
    }
    assert(v@.take(v@.len() as int) =~= v@);
    let ghost before = strings_view(pieces@);
    pieces.push(cur);
    assert(strings_view(pieces@) =~= before.push(cur@));
    pieces
}

/// The permissions in a `Commands` value (comma-separated, trimmed, empty
/// entries dropped).
pub fn parse_commands(commands: &str) -> (r: Vec<String>)
    ensures
        strings_view(r@) == parse_permissions(commands@),
{
    let pieces = split_on_commas(commands);
    let mut out: Vec<String> = Vec::new();
    let mut i: usize = 0;
    while i < pieces.len()
        invariant
            i <= pieces@.len(),
            strings_view(out@) == nonempty_trimmed(strings_view(pieces@).take(i as int)),
        decreases pieces@.len() - i,
    {
        assert(strings_view(pieces@).take(i + 1).drop_last() =~= strings_view(pieces@).take(i as int));
        assert(strings_view(pieces@).take(i + 1).last() == pieces@[i as int]@);
        let t = trimmed(pieces[i].as_str());
        if t.unicode_len() > 0 {
            let ghost before = strings_view(out@);
            out.push(t);
            assert(strings_view(out@) =~= before.push(t@));
        }
        i = i + 1;
    }
    assert(strings_view(pieces@).take(pieces@.len() as int) =~= strings_view(pieces@));
    out
}

/// The `Commands` value of a list of permissions: joined with `,`.
pub fn serialize_commands(permissions: &Vec<String>) -> (r: String)
    ensures
        r@ == join_commas(strings_view(permissions@)),
{
    let mut out = String::new();
    let mut i: usize = 0;
    assert(strings_view(permissions@).take(0) =~= Seq::<Seq<char>>::empty());
    while i < permissions.len()
        invariant
            i <= permissions@.len(),
            out@ == join_commas(strings_view(permissions@).take(i as int)),
        decreases permissions@.len() - i,
    {
        let ghost sv = strings_view(permissions@);
        assert(sv.take(i + 1).drop_last() =~= sv.take(i as int));
        assert(sv.take(i + 1).last() == permissions@[i as int]@);
        if i > 0 {
            append(&mut out, ",");
        } else {
            assert(sv.take(1) =~= seq![permissions@[0]@]);
        }
        append(&mut out, permissions[i].as_str());
        i = i + 1;
    }
    assert(strings_view(permissions@).take(permissions@.len() as int) =~= strings_view(permissions@));
    out
}

/// An entry that reads back as itself: not empty, no comma, no whitespace
/// at either end.
pub open spec fn is_plain_permission(p: Seq<char>) -> bool {
    &&& p.len() > 0
    &&& !p.contains(',')
    &&& !is_ws(p[0])
    &&& !is_ws(p.last())
}

proof fn lemma_split_append_plain(x: Seq<char>, y: Seq<char>)
    requires
        !y.contains(','),
    ensures
        split_commas(x + y) == split_commas(x).update(
            split_commas(x).len() - 1,
            split_commas(x).last() + y,
        ),
    decreases y.len(),
{
    lemma_split_nonempty(x);
    if y.len() == 0 {
        assert(x + y =~= x);
        assert(split_commas(x).last() + y =~= split_commas(x).last());
        assert(split_commas(x).update(split_commas(x).len() - 1, split_commas(x).last()) =~= split_commas(x));
    } else {
        let y0 = y.drop_last();
        assert(!y0.contains(',')) by {
            if y0.contains(',') {
                let k = choose|k: int| 0 <= k < y0.len() && y0[k] == ',';
                assert(y[k] == ',');
            }
        }
        lemma_split_append_plain(x, y0);
        assert((x + y).drop_last() =~= x + y0);
        assert((x + y).last() == y.last());
        assert(y.last() != ',') by {
            assert(y[y.len() - 1] == y.last());
        }
        let sx = split_commas(x);
        let p = split_commas(x + y0);
        lemma_split_nonempty(x + y0);
        assert(p.len() == sx.len());
        assert(p.last() == sx.last() + y0);
        assert(split_commas(x + y) == p.update(p.len() - 1, p.last().push(y.last())));
        assert((sx.last() + y0).push(y.last()) =~= sx.last() + y);
        assert(split_commas(x + y) =~= split_commas(x).update(
            split_commas(x).len() - 1,
            split_commas(x).last() + y,
        ));
    }
}

proof fn lemma_split_join(perms: Seq<Seq<char>>)
    requires
        perms.len() > 0,
        forall|i: int| 0 <= i < perms.len() ==> !(#[trigger] perms[i]).contains(','),
    ensures
        split_commas(join_commas(perms)) == perms,
    decreases perms.len(),
{
    if perms.len() == 1 {
        lemma_split_append_plain(Seq::empty(), perms[0]);
        assert(Seq::<char>::empty() + perms[0] =~= perms[0]);
        assert(split_commas(Seq::<char>::empty()).last() + perms[0] =~= perms[0]);
        assert(split_commas(perms[0]) =~= perms);
    } else {
        let front = perms.drop_last();
        assert forall|i: int| 0 <= i < front.len() implies !(#[trigger] front[i]).contains(',') by {
            assert(front[i] == perms[i]);
        }
        lemma_split_join(front);
        let j = join_commas(front);
        reveal_strlit(",");
        let jc = j + ","@;
        assert(jc.drop_last() =~= j);
        assert(jc.last() == ',');
        assert(split_commas(jc) == front.push(Seq::empty()));
        assert(!perms.last().contains(',')) by {
            assert(perms[perms.len() - 1] == perms.last());
        }
        lemma_split_append_plain(jc, perms.last());
        assert(Seq::<char>::empty() + perms.last() =~= perms.last());
        assert(front.push(Seq::empty()).update(front.len() as int, perms.last()) =~= perms);
    }
}

proof fn lemma_nonempty_trimmed_plain(perms: Seq<Seq<char>>)
    requires
        forall|i: int| 0 <= i < perms.len() ==> is_plain_permission(#[trigger] perms[i]),
    ensures
        nonempty_trimmed(perms) == perms,
    decreases perms.len(),
{
    if perms.len() > 0 {
        let front = perms.drop_last();
        assert forall|i: int| 0 <= i < front.len() implies is_plain_permission(#[trigger] front[i]) by {
            assert(front[i] == perms[i]);
        }
        lemma_nonempty_trimmed_plain(front);
        let l = perms.last();
        assert(is_plain_permission(perms[perms.len() - 1]));
        assert(trim(l) == l);
        assert(front.push(l) =~= perms);
    }
}

/// A list of plain permissions written to the `Commands` column reads back
/// as the same list.
pub proof fn law_commands_round_trip(perms: Seq<Seq<char>>)
    requires
        forall|i: int| 0 <= i < perms.len() ==> is_plain_permission(#[trigger] perms[i]),
    ensures
        parse_permissions(join_commas(perms)) == perms,
{
    if perms.len() == 0 {
        assert(split_commas(Seq::<char>::empty()) =~= seq![Seq::<char>::empty()]);
        assert(trim(Seq::<char>::empty()) =~= Seq::<char>::empty());
        assert(seq![Seq::<char>::empty()].drop_last() =~= Seq::<Seq<char>>::empty());
        assert(nonempty_trimmed(Seq::<Seq<char>>::empty()) =~= Seq::<Seq<char>>::empty());
        assert(nonempty_trimmed(seq![Seq::<char>::empty()]) =~= perms);
    } else {
        assert forall|i: int| 0 <= i < perms.len() implies !(#[trigger] perms[i]).contains(',') by {
            assert(is_plain_permission(perms[i]));
        }
        lemma_split_join(perms);
        lemma_nonempty_trimmed_plain(perms);
    }
}

// ───────────────────────── adding and removing permissions ─────────────────────────

/// `s` without the entries equal to the one before them.
pub open spec fn dedup(s: Seq<Seq<char>>) -> Seq<Seq<char>>
    decreases s.len(),
{
    if s.len() <= 1 {
        s
    } else {
        let p = dedup(s.drop_last());
        if s.last() == s[s.len() - 2] {
            p
        } else {
            p.push(s.last())
        }
    }
}

proof fn lemma_dedup_contains(s: Seq<Seq<char>>)
    ensures
        forall|x: Seq<char>| #[trigger] dedup(s).contains(x) <==> s.contains(x),
        dedup(s).len() <= s.len(),
    decreases s.len(),
{
    if s.len() > 1 {
        let f = s.drop_last();
        lemma_dedup_contains(f);
        let d = dedup(f);
        let same = s.last() == s[s.len() - 2];
        assert(same ==> dedup(s) == d);
        assert(!same ==> dedup(s) == d.push(s.last()));
        assert forall|x: Seq<char>| #[trigger] dedup(s).contains(x) <==> s.contains(x) by {
            if s.contains(x) {
                let k = choose|k: int| 0 <= k < s.len() && s[k] == x;
                let k2 = if k < s.len() - 1 { k } else if same { s.len() - 2 } else { -1 };
                if k2 >= 0 {
                    assert(f[k2] == x);
                    assert(f.contains(x));
                    assert(d.contains(x));
                    let m = choose|m: int| 0 <= m < d.len() && d[m] == x;
                    assert(dedup(s)[m] == x);
                } else {
                    assert(dedup(s)[d.len() as int] == x);
                }
            }
            if dedup(s).contains(x) {
                let k = choose|k: int| 0 <= k < dedup(s).len() && dedup(s)[k] == x;
                if k < d.len() {
                    assert(d[k] == x);
                    assert(d.contains(x));
                    assert(f.contains(x));
                    let m = choose|m: int| 0 <= m < f.len() && f[m] == x;
                    assert(s[m] == x);
                } else {
                    assert(s[s.len() - 1] == x);
                }
            }
        }
    }
}

proof fn lemma_dedup_sorted(s: Seq<Seq<char>>)
    requires
        names_sorted(s),
    ensures
        names_sorted(dedup(s)),
        s.len() > 0 ==> dedup(s).len() > 0 && dedup(s).last() == s.last(),
    decreases s.len(),
{
    if s.len() > 1 {
        let f = s.drop_last();
        assert(names_sorted(f)) by {
            assert forall|i: int, j: int| 0 <= i < j < f.len() implies name_le(#[trigger] f[i], #[trigger] f[j]) by {
                assert(f[i] == s[i] && f[j] == s[j]);
            }
        }
        lemma_dedup_sorted(f);
        lemma_dedup_contains(f);
        let d = dedup(f);
        if s.last() != s[s.len() - 2] {
            assert forall|i: int, j: int| 0 <= i < j < d.len() + 1 implies name_le(
                #[trigger] d.push(s.last())[i],
                #[trigger] d.push(s.last())[j],
            ) by {
                if j == d.len() {
                    assert(d.contains(d[i]));
                    let m = choose|m: int| 0 <= m < f.len() && f[m] == d[i];
                    assert(s[m] == d[i]);
                    assert(name_le(s[m], s[s.len() - 1]));
                } else {
                    assert(d.push(s.last())[i] == d[i]);
                    assert(d.push(s.last())[j] == d[j]);
                }
            }
        }
    }
}

/// The permissions after adding one to a `Commands` list: the list with it,
/// sorted, without repeats.
pub open spec fn with_permission(perms: Seq<Seq<char>>, p: Seq<char>) -> Seq<Seq<char>> {
    dedup(sort_names(perms.push(p)))
}

pub open spec fn already_granted_message(p: Seq<char>, group: Seq<char>) -> Seq<char> {
    "Permission '"@ + p + "' already exists for group '"@ + group + "'"@
}

pub open spec fn permission_missing_message(p: Seq<char>, group: Seq<char>) -> Seq<char> {
    "Permission '"@ + p + "' not found for group '"@ + group + "'"@
}

/// The permissions after removing one: every entry equal to it goes.
pub open spec fn without_permission(perms: Seq<Seq<char>>, p: Seq<char>) -> Seq<Seq<char>> {
    perms.filter(other_than(p))
}

/// The test "is not `p`".
pub open spec fn other_than(p: Seq<char>) -> spec_fn(Seq<char>) -> bool {
    |x: Seq<char>| x != p
}

/// The error when a group already has a permission.
pub fn already_granted(permission: &str, group: &str) -> (r: AppError)
    ensures
        r matches AppError::Conflict(m) && m@ == already_granted_message(permission@, group@),
{
    let mut m = concat3("Permission '", permission, "' already exists for group '");
    append(&mut m, group);
    append(&mut m, "'");
    AppError::Conflict(m)
}

/// The error when a group lacks the permission to remove.
pub fn permission_missing(permission: &str, group: &str) -> (r: AppError)
    ensures
        r matches AppError::NotFound(m) && m@ == permission_missing_message(permission@, group@),
{
    let mut m = concat3("Permission '", permission, "' not found for group '");
    append(&mut m, group);
    append(&mut m, "'");
    AppError::NotFound(m)
}

fn contains_name(v: &Vec<String>, p: &str) -> (r: bool)
    ensures
        r == strings_view(v@).contains(p@),
{
    let mut i: usize = 0;
    while i < v.len()
        invariant
            i <= v@.len(),
            forall|k: int| 0 <= k < i ==> strings_view(v@)[k] != p@,
        decreases v@.len() - i,
    {
        assert(strings_view(v@)[i as int] == v@[i as int]@);
        if str_eq(v[i].as_str(), p) {
            assert(strings_view(v@)[i as int] == p@);
            return true;
        }
        i = i + 1;
    }
    false
}

fn dedup_names(v: &Vec<String>) -> (r: Vec<String>)
    ensures
        strings_view(r@) == dedup(strings_view(v@)),
{
    let mut out: Vec<String> = Vec::new();
    let mut i: usize = 0;
    while i < v.len()
        invariant
            i <= v@.len(),
            strings_view(out@) == dedup(strings_view(v@).take(i as int)),
        decreases v@.len() - i,
    {
        let ghost sv = strings_view(v@);
        assert(sv.take(i + 1).drop_last() =~= sv.take(i as int));
        assert(sv.take(i + 1).last() == v@[i as int]@);
        if i == 0 || !str_eq(v[i].as_str(), v[i - 1].as_str()) {
            let ghost before = strings_view(out@);
            out.push(v[i].clone());
            assert(strings_view(out@) =~= before.push(v@[i as int]@));
            if i == 0 {
                assert(sv.take(1) =~= seq![v@[0]@]);
            } else {
                assert(sv.take(i + 1)[i - 1] == v@[i - 1]@);
            }
        } else {
            assert(sv.take(i + 1)[i - 1] == v@[i - 1]@);
        }
        i = i + 1;
    }
    assert(strings_view(v@).take(v@.len() as int) =~= strings_view(v@));
    out
}

/// Adds a permission to a `Commands` list: `Conflict` when the group has it
/// already, else the list with it, sorted and without repeats.
pub fn add_permission_to_list(perms: &Vec<String>, permission: &str, group: &str) -> (r: Result<Vec<String>, AppError>)
    ensures
        r is Err <==> strings_view(perms@).contains(permission@),
        r matches Err(e) ==> (e matches AppError::Conflict(m) && m@ == already_granted_message(permission@, group@)),
        r matches Ok(v) ==> strings_view(v@) == with_permission(strings_view(perms@), permission@),
{
    if contains_name(perms, permission) {
        return Err(already_granted(permission, group));
    }
    let mut all: Vec<String> = perms.clone();
    proof {
        assert(strings_view(all@) == strings_view(perms@));
    }
    let ghost before = strings_view(all@);
    all.push(owned(permission));
    assert(strings_view(all@) =~= before.push(permission@));
    let sorted = sort_by_name(&all);
    Ok(dedup_names(&sorted))
}

/// Removes a permission from a `Commands` list: every entry equal to it
/// goes; `None` when there was none.
pub fn remove_permission_from_list(perms: &Vec<String>, permission: &str) -> (r: Option<Vec<String>>)
    ensures
        r is None <==> !strings_view(perms@).contains(permission@),
        r matches Some(v) ==> strings_view(v@) == without_permission(strings_view(perms@), permission@),
{
    let ghost keep = other_than(permission@);
    let mut out: Vec<String> = Vec::new();
    let mut found = false;
    let mut i: usize = 0;
    while i < perms.len()
        invariant
            i <= perms@.len(),
            strings_view(out@) == strings_view(perms@).take(i as int).filter(keep),
            keep == other_than(permission@),
            found <==> strings_view(perms@).take(i as int).contains(permission@),
        decreases perms@.len() - i,
    {
        let ghost sv = strings_view(perms@);
        assert(sv.take(i + 1).drop_last() =~= sv.take(i as int));
        assert(sv.take(i + 1).last() == perms@[i as int]@);
        proof {
            sv.take(i as int).lemma_filter_push(perms@[i as int]@, keep);
            assert(sv.take(i as int).push(perms@[i as int]@) =~= sv.take(i + 1));
        }
        if str_eq(perms[i].as_str(), permission) {
            found = true;
            assert(sv.take(i + 1)[i as int] == permission@);
        } else {
            let ghost before = strings_view(out@);
            out.push(perms[i].clone());
            assert(strings_view(out@) =~= before.push(perms@[i as int]@));
            assert(sv.take(i + 1).contains(permission@) ==> sv.take(i as int).contains(permission@)) by {
                if sv.take(i + 1).contains(permission@) {
                    let t = sv.take(i + 1);
                    let k = choose|k: int| 0 <= k < t.len() && t[k] == permission@;
                    assert(k < i);
                    assert(sv.take(i as int)[k] == permission@);
                }
            }
        }
        assert(sv.take(i as int).contains(permission@) ==> sv.take(i + 1).contains(permission@)) by {
            if sv.take(i as int).contains(permission@) {
                let t = sv.take(i as int);
                let k = choose|k: int| 0 <= k < t.len() && t[k] == permission@;
                assert(sv.take(i + 1)[k] == permission@);
            }
        }
        i = i + 1;
    }
    assert(strings_view(perms@).take(perms@.len() as int) =~= strings_view(perms@));
    if found {
        Some(out)
    } else {
        None
    }
}

/// A group's permissions from its `Commands` value, sorted.
pub fn listed_permissions(commands: &str) -> (r: Vec<String>)
    ensures
        strings_view(r@) == sort_names(parse_permissions(commands@)),
{
    let perms = parse_commands(commands);
    sort_by_name(&perms)
}

/// After adding a permission to a `Commands` list, the list holds it and
/// every permission it held before and nothing else, sorted, each once;
/// removing it again leaves exactly the permissions held before.
pub proof fn law_add_then_remove_permission(perms: Seq<Seq<char>>, p: Seq<char>)
    requires
        !perms.contains(p),
    ensures
        with_permission(perms, p).contains(p),
        forall|x: Seq<char>| #[trigger] with_permission(perms, p).contains(x) <==> (x == p || perms.contains(x)),
        names_sorted(with_permission(perms, p)),
        forall|x: Seq<char>| #[trigger] without_permission(with_permission(perms, p), p).contains(x) <==> perms.contains(x),
{
    broadcast use vstd::seq_lib::group_to_multiset_ensures;

    let all = perms.push(p);
    lemma_sort_names(all);
    let sorted = sort_names(all);
    lemma_dedup_contains(sorted);
    lemma_dedup_sorted(sorted);
    let w = with_permission(perms, p);
    assert forall|x: Seq<char>| #[trigger] w.contains(x) <==> (x == p || perms.contains(x)) by {
        assert(sorted.contains(x) <==> sorted.to_multiset().count(x) > 0);
        assert(all.contains(x) <==> all.to_multiset().count(x) > 0);
        if x == p {
            assert(all[perms.len() as int] == p);
        }
        if perms.contains(x) {
            let k = choose|k: int| 0 <= k < perms.len() && perms[k] == x;
            assert(all[k] == x);
        }
        if all.contains(x) && x != p {
            let k = choose|k: int| 0 <= k < all.len() && all[k] == x;
            assert(perms[k] == x);
        }
    }
    let keep = other_than(p);
    assert forall|x: Seq<char>| #[trigger] w.filter(keep).contains(x) <==> perms.contains(x) by {
        if w.filter(keep).contains(x) {
            w.lemma_filter_contains_rev(keep, x);
            let k = choose|k: int| 0 <= k < w.filter(keep).len() && w.filter(keep)[k] == x;
            w.lemma_filter_pred(keep, k);
        }
        if perms.contains(x) {
            assert(x != p);
            assert(w.contains(x));
            let k = choose|k: int| 0 <= k < w.len() && w[k] == x;
            w.lemma_filter_contains(keep, k);
        }
    }
}

// ───────────────────────── groups ─────────────────────────

/// TShock's built-in groups, which cannot be deleted (ASCII case ignored).
pub open spec fn is_protected_group(name: Seq<char>) -> bool {
    let l = ascii_lower_seq(name);
    l == "superadmin"@ || l == "owner"@ || l == "guest"@ || l == "default"@
}

/// Whether a group may be deleted: not a built-in one, and without users.
pub fn check_group_deletion(group: &str, user_count: i64) -> (r: Result<(), AppError>)
    ensures
        r is Ok <==> !is_protected_group(group@) && user_count <= 0,
        is_protected_group(group@) ==> (r matches Err(AppError::BadRequest(m)) && m@ == "Cannot delete built-in group '"@
            + group@ + "'"@),
        !is_protected_group(group@) && user_count > 0 ==> (r matches Err(AppError::BadRequest(m)) && m@
            == "Cannot delete group '"@ + group@ + "': "@ + signed_decimal(user_count as int)
            + " users still belong to it. Move them first."@),
{
    let lower = ascii_lowercase(&chars_of(group));
    if vec_eq(&lower, &chars_of("superadmin")) || vec_eq(&lower, &chars_of("owner")) || vec_eq(
        &lower,
        &chars_of("guest"),
    ) || vec_eq(&lower, &chars_of("default")) {
        return Err(AppError::BadRequest(concat3("Cannot delete built-in group '", group, "'")));
    }
    if user_count > 0 {
        let mut m = concat3("Cannot delete group '", group, "': ");
        let n = i64_text(user_count);
        append(&mut m, n.as_str());
        append(&mut m, " users still belong to it. Move them first.");
        return Err(AppError::BadRequest(m));
    }
    Ok(())
}

/// The error when a group to create exists already.
pub fn group_exists_error(name: &str) -> (r: AppError)
    ensures
        r matches AppError::Conflict(m) && m@ == "Group '"@ + name@ + "' already exists"@,
{
    AppError::Conflict(concat3("Group '", name, "' already exists"))
}

/// The error when a group is not there.
pub fn group_not_found(name: &str) -> (r: AppError)
    ensures
        r matches AppError::NotFound(m) && m@ == "Group '"@ + name@ + "' not found"@,
{
    AppError::NotFound(concat3("Group '", name, "' not found"))
}

/// The error when a TShock user is not there.
pub fn user_not_found(username: &str) -> (r: AppError)
    ensures
        r matches AppError::NotFound(m) && m@ == "TShock user '"@ + username@ + "' not found"@,
{
    AppError::NotFound(concat3("TShock user '", username, "' not found"))
}

/// The reply when a user changed group.
pub fn user_moved_message(username: &str, group: &str) -> (r: String)
    ensures
        r@ == "User '"@ + username@ + "' moved to group '"@ + group@ + "'"@,
{
    let mut m = concat3("User '", username, "' moved to group '");
    append(&mut m, group);
    append(&mut m, "'");
    m
}

// ───────────────────────── SSC characters ─────────────────────────

/// The summary of an SSC character, with TShock's defaults for the values
/// that cannot be read: no health or mana of a maximum of 100 and 20, and
/// no quests.
#[derive(Debug, Clone)]
pub struct CharacterSummary {
    pub account: i64,
    pub username: Option<String>,
    pub health: i32,
    pub max_health: i32,
    pub mana: i32,
    pub max_mana: i32,
    pub quests_completed: i32,
}

pub fn character_summary(
    account: i64,
    health: Option<i32>,
    max_health: Option<i32>,
    mana: Option<i32>,
    max_mana: Option<i32>,
    quests_completed: Option<i32>,
) -> (r: CharacterSummary)
    ensures
        r.account == account,
        r.username is None,
        r.health == (match health { Some(v) => v, None => 0 }),
        r.max_health == (match max_health { Some(v) => v, None => 100 }),
        r.mana == (match mana { Some(v) => v, None => 0 }),
        r.max_mana == (match max_mana { Some(v) => v, None => 20 }),
        r.quests_completed == (match quests_completed { Some(v) => v, None => 0 }),
{
    CharacterSummary {
        account,
        username: None,
        health: match health {
            Some(v) => v,
            None => 0,
        },
        max_health: match max_health {
            Some(v) => v,
            None => 100,
        },
        mana: match mana {
            Some(v) => v,
            None => 0,
        },
        max_mana: match max_mana {
            Some(v) => v,
            None => 20,
        },
        quests_completed: match quests_completed {
            Some(v) => v,
            None => 0,
        },
    }
}

/// The error when an SSC character is not there.
pub fn character_not_found(account: i64) -> (r: AppError)
    ensures
        r matches AppError::NotFound(m) && m@ == "SSC character with account "@ + signed_decimal(account as int)
            + " not found"@,
{
    let mut m = owned("SSC character with account ");
    let n = i64_text(account);
    append(&mut m, n.as_str());
    append(&mut m, " not found");
    AppError::NotFound(m)
}

/// Where a character backup goes: `<data_dir>/saves/ssc-backups`.
pub fn character_backup_dir(data_dir: &str) -> (r: String)
    ensures
        r@ == path_join(path_join(data_dir@, "saves"@), "ssc-backups"@),
{
    let a = join(data_dir, "saves");
    join(a.as_str(), "ssc-backups")
}

/// The file name of a character backup: `ssc-backup_<server>_<stamp>.json`.
pub fn character_backup_name(server_id: &str, stamp: &str) -> (r: String)
    ensures
        r@ == "ssc-backup_"@ + server_id@ + "_"@ + stamp@ + ".json"@,
{
    let mut m = concat3("ssc-backup_", server_id, "_");
    append(&mut m, stamp);
    append(&mut m, ".json");
    m
}

} // verus!
