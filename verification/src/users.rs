//! Users, their sites, and the records the server stores for them.

use vstd::prelude::*;
use vstd::string::*;
use vstd::utf8::*;
use vstd::std_specs::cmp::PartialEqSpec;

use crate::password::{argon2_accepts, has_default_prefix, hash_password, phc_parses};

verus! {

/// A row of the `users` table.
#[derive(Debug)]
pub struct User {
    pub username: String,
    pub password_hash: String,
    pub reset_password: bool,
}

/// A row of the `sites` table: a site and the user who owns it.
#[derive(Debug)]
pub struct Site {
    pub site_name: String,
    pub owner_name: String,
}

impl PartialEq for Site {
    fn eq(&self, other: &Site) -> (r: bool) {
        self.site_name == other.site_name && self.owner_name == other.owner_name
    }
}

impl vstd::std_specs::cmp::PartialEqSpecImpl for Site {
    open spec fn obeys_eq_spec() -> bool {
        true
    }

    open spec fn eq_spec(&self, other: &Site) -> bool {
        self.site_name@ == other.site_name@ && self.owner_name@ == other.owner_name@
    }
}

impl Eq for Site {}

/// Two sites are equal exactly when both their names and their owners are.
pub proof fn lemma_site_equality(a: Site, b: Site)
    ensures
        a.eq_spec(&b) <==> (a.site_name@ == b.site_name@ && a.owner_name@ == b.owner_name@),
{
}

/// Whether two strings hold the same characters.
pub(crate) fn same_text(a: &str, b: &str) -> (r: bool)
    ensures
        r == (a@ == b@),
{
    let a_owned = a.to_owned();
    let b_owned = b.to_owned();
    a_owned == b_owned
}

/// `sites` holds a row for `site_name` owned by `owner`.
pub open spec fn lists_site(sites: Seq<Site>, site_name: Seq<char>, owner: Seq<char>) -> bool {
    exists|i: int|
        0 <= i < sites.len() && #[trigger] sites[i].site_name@ == site_name && sites[i].owner_name@
            == owner
}

/// No sites list no site, and adding a row lists exactly that row's site and
/// owner besides those listed before.
pub proof fn lemma_lists_site_rule(sites: Seq<Site>, row: Site, site_name: Seq<char>, owner: Seq<char>)
    ensures
        !lists_site(Seq::<Site>::empty(), site_name, owner),
        lists_site(sites.push(row), site_name, owner) <==> (lists_site(sites, site_name, owner) || (
        row.site_name@ == site_name && row.owner_name@ == owner)),
{
    let longer = sites.push(row);
    if lists_site(longer, site_name, owner) {
        let i = choose|i: int|
            0 <= i < longer.len() && #[trigger] longer[i].site_name@ == site_name
                && longer[i].owner_name@ == owner;
        if i < sites.len() {
            assert(sites[i] == longer[i]);
        }
    }
    if lists_site(sites, site_name, owner) {
        let i = choose|i: int|
            0 <= i < sites.len() && #[trigger] sites[i].site_name@ == site_name
                && sites[i].owner_name@ == owner;
        assert(longer[i] == sites[i]);
    }
    if row.site_name@ == site_name && row.owner_name@ == owner {
        assert(longer[sites.len() as int] == row);
    }
}

/// Whether `sites` holds the row (`site_name`, `owner`).
pub fn site_is_listed(sites: &Vec<Site>, site_name: &str, owner: &str) -> (b: bool)
    ensures
        b == lists_site(sites@, site_name@, owner@),
{
    let name = site_name.to_owned();
    let owner_owned = owner.to_owned();
    let mut i: usize = 0;
    while i < sites.len()
        invariant
            i <= sites.len(),
            name@ == site_name@,
            owner_owned@ == owner@,
            forall|j: int|
                0 <= j < i ==> !(#[trigger] sites@[j].site_name@ == site_name@ && sites@[j].owner_name@
                    == owner@),
        decreases sites.len() - i,
    {
        if sites[i].site_name == name && sites[i].owner_name == owner_owned {
            return true;
        }
        i = i + 1;
    }
    false
}

/// The items of `rows` that are present, in order.
pub open spec fn present_rows<T>(rows: Seq<Option<T>>) -> Seq<T>
    decreases rows.len(),
{
    if rows.len() == 0 {
        Seq::empty()
    } else {
        match rows[0] {
            Some(x) => seq![x] + present_rows(rows.drop_first()),
            None => present_rows(rows.drop_first()),
        }
    }
}

/// The rows kept are exactly the present ones, in order: none from no rows,
/// one more for each further row that is present, none for one that is not.
pub proof fn lemma_present_rows_rule<T>(rows: Seq<Option<T>>, row: Option<T>)
    ensures
        present_rows(Seq::<Option<T>>::empty()) == Seq::<T>::empty(),
        row matches Some(x) ==> present_rows(rows.push(row)) == present_rows(rows).push(x),
        row is None ==> present_rows(rows.push(row)) == present_rows(rows),
    decreases rows.len(),
{
    let longer = rows.push(row);
    if rows.len() == 0 {
        assert(longer.drop_first() =~= Seq::<Option<T>>::empty());
        assert(longer[0] == row);
        if let Some(x) = row {
            assert(seq![x] + Seq::<T>::empty() =~= Seq::<T>::empty().push(x));
        }
    } else {
        lemma_present_rows_rule(rows.drop_first(), row);
        assert(longer.drop_first() =~= rows.drop_first().push(row));
        assert(longer[0] == rows[0]);
        if let Some(x) = row {
            if let Some(y) = rows[0] {
                assert(seq![y] + present_rows(rows.drop_first()).push(x) =~= (seq![y]
                    + present_rows(rows.drop_first())).push(x));
            }
        }
    }
}

/// Keeps the rows that could be read, in order, and drops the others.
pub fn readable_rows<T>(rows: Vec<Option<T>>) -> (kept: Vec<T>)
    ensures
        kept@ == present_rows(rows@),
{
    let mut rest = rows;
    let mut kept: Vec<T> = Vec::new();
    while rest.len() > 0
        invariant
            present_rows(rows@) == kept@ + present_rows(rest@),
        decreases rest.len(),
    {
        let ghost before = rest@;
        let row = rest.remove(0);
        assert(before.drop_first() == rest@);
        let ghost kept_before = kept@;
        match row {
            Some(x) => {
                kept.push(x);
                assert(kept_before + (seq![x] + present_rows(rest@)) == kept@ + present_rows(
                    rest@,
                ));
            },
            None => {},
        }
    }
    assert(kept@ + present_rows(rest@) == kept@);
    kept
}

/// What `site_owner_from_rows` gives for rows that name one site: an error
/// for several rows, nobody for none, the owner for one.
pub open spec fn owner_from_rows(rows: Seq<Site>) -> Result<Option<Seq<char>>, ()> {
    if rows.len() > 1 {
        Err(())
    } else if rows.len() == 0 {
        Ok(None)
    } else {
        Ok(Some(rows[0].owner_name@))
    }
}

/// What the owner lookup gives for the rows naming a site: an error for
/// two or more rows, nobody for none, and the one row's owner for one.
pub proof fn lemma_owner_from_rows_rule(rows: Seq<Site>)
    ensures
        rows.len() >= 2 ==> owner_from_rows(rows) == Err::<Option<Seq<char>>, ()>(()),
        rows.len() == 0 ==> owner_from_rows(rows) == Ok::<Option<Seq<char>>, ()>(None),
        rows.len() == 1 ==> owner_from_rows(rows) == Ok::<Option<Seq<char>>, ()>(
            Some(rows[0].owner_name@),
        ),
{
}

/// The rows of a sites table that name `site_name`, in order: what the
/// query of `get_site_owner` reads.
pub open spec fn rows_named(table: Seq<Site>, site_name: Seq<char>) -> Seq<Site>
    decreases table.len(),
{
    if table.len() == 0 {
        Seq::empty()
    } else if table[0].site_name@ == site_name {
        seq![table[0]] + rows_named(table.drop_first(), site_name)
    } else {
        rows_named(table.drop_first(), site_name)
    }
}

/// The rows of a sites table owned by `owner`, in order: what the query of
/// `get_user_sites` reads.
pub open spec fn rows_owned_by(table: Seq<Site>, owner: Seq<char>) -> Seq<Site>
    decreases table.len(),
{
    if table.len() == 0 {
        Seq::empty()
    } else if table[0].owner_name@ == owner {
        seq![table[0]] + rows_owned_by(table.drop_first(), owner)
    } else {
        rows_owned_by(table.drop_first(), owner)
    }
}

/// No two rows of the table name the same site (the site name is the key).
pub open spec fn unique_site_names(table: Seq<Site>) -> bool {
    forall|i: int, j: int|
        0 <= i < j < table.len() ==> #[trigger] table[i].site_name@ != #[trigger] table[j].site_name@
}

/// The table holds the row (`site_name`, `owner`).
pub open spec fn has_row(table: Seq<Site>, site_name: Seq<char>, owner: Seq<char>) -> bool {
    exists|i: int|
        0 <= i < table.len() && #[trigger] table[i].site_name@ == site_name && table[i].owner_name@
            == owner
}

proof fn lemma_owned_rows_list(table: Seq<Site>, site_name: Seq<char>, owner: Seq<char>)
    ensures
        lists_site(rows_owned_by(table, owner), site_name, owner) <==> has_row(
            table,
            site_name,
            owner,
        ),
    decreases table.len(),
{
    if table.len() > 0 {
        let rest = table.drop_first();
        lemma_owned_rows_list(rest, site_name, owner);
        let r = rows_owned_by(table, owner);
        let rr = rows_owned_by(rest, owner);
        if has_row(table, site_name, owner) {
            let i = choose|i: int|
                0 <= i < table.len() && #[trigger] table[i].site_name@ == site_name
                    && table[i].owner_name@ == owner;
            if i == 0 {
                assert(r[0] == table[0]);
            } else {
                assert(rest[i - 1] == table[i]);
                assert(lists_site(rr, site_name, owner));
                let k = choose|k: int|
                    0 <= k < rr.len() && #[trigger] rr[k].site_name@ == site_name
                        && rr[k].owner_name@ == owner;
                if table[0].owner_name@ == owner {
                    assert(r[k + 1] == rr[k]);
                }
            }
        }
        if lists_site(r, site_name, owner) {
            let k = choose|k: int|
                0 <= k < r.len() && #[trigger] r[k].site_name@ == site_name && r[k].owner_name@
                    == owner;
            if table[0].owner_name@ == owner {
                if k == 0 {
                    assert(table[0].site_name@ == site_name);
                } else {
                    assert(rr[k - 1] == r[k]);
                    let i = choose|i: int|
                        0 <= i < rest.len() && #[trigger] rest[i].site_name@ == site_name
                            && rest[i].owner_name@ == owner;
                    assert(table[i + 1] == rest[i]);
                }
            } else {
                let i = choose|i: int|
                    0 <= i < rest.len() && #[trigger] rest[i].site_name@ == site_name
                        && rest[i].owner_name@ == owner;
                assert(table[i + 1] == rest[i]);
            }
        }
    }
}

proof fn lemma_rows_named_none(table: Seq<Site>, site_name: Seq<char>)
    requires
        forall|i: int| 0 <= i < table.len() ==> #[trigger] table[i].site_name@ != site_name,
    ensures
        rows_named(table, site_name).len() == 0,
    decreases table.len(),
{
    if table.len() > 0 {
        let rest = table.drop_first();
        assert forall|i: int| 0 <= i < rest.len() implies #[trigger] rest[i].site_name@
            != site_name by {
            assert(rest[i] == table[i + 1]);
        }
        lemma_rows_named_none(rest, site_name);
    }
}

proof fn lemma_rows_named_one(table: Seq<Site>, site_name: Seq<char>, i: int)
    requires
        unique_site_names(table),
        0 <= i < table.len(),
        table[i].site_name@ == site_name,
    ensures
        rows_named(table, site_name) == seq![table[i]],
    decreases table.len(),
{
    let rest = table.drop_first();
    if i == 0 {
        assert forall|j: int| 0 <= j < rest.len() implies #[trigger] rest[j].site_name@
            != site_name by {
            assert(rest[j] == table[j + 1]);
            assert(table[0].site_name@ != table[j + 1].site_name@);
        }
        lemma_rows_named_none(rest, site_name);
        assert(rows_named(rest, site_name) =~= Seq::<Site>::empty());
        assert(seq![table[0]] + Seq::<Site>::empty() =~= seq![table[0]]);
    } else {
        assert(table[0].site_name@ != table[i].site_name@);
        assert forall|a: int, b: int| 0 <= a < b < rest.len() implies #[trigger] rest[a].site_name@
            != #[trigger] rest[b].site_name@ by {
            assert(rest[a] == table[a + 1]);
            assert(rest[b] == table[b + 1]);
        }
        assert(rest[i - 1] == table[i]);
        lemma_rows_named_one(rest, site_name, i - 1);
    }
}

/// On one sites table whose site names are unique, the owner lookup of a
/// site and the site lookups of its users agree: the site's owner is the one
/// user whose sites list it, and a site with no owner is listed for nobody.
pub proof fn lemma_owner_lookups_agree(table: Seq<Site>, site_name: Seq<char>, owner: Seq<char>)
    requires
        unique_site_names(table),
    ensures
        owner_from_rows(rows_named(table, site_name)) is Ok,
        owner_from_rows(rows_named(table, site_name)) == Ok::<Option<Seq<char>>, ()>(Some(owner))
            <==> lists_site(rows_owned_by(table, owner), site_name, owner),
        owner_from_rows(rows_named(table, site_name)) == Ok::<Option<Seq<char>>, ()>(None) <==> (
        forall|u: Seq<char>| !lists_site(#[trigger] rows_owned_by(table, u), site_name, u)),
{
    lemma_owned_rows_list(table, site_name, owner);
    if exists|i: int| 0 <= i < table.len() && #[trigger] table[i].site_name@ == site_name {
        let i = choose|i: int| 0 <= i < table.len() && #[trigger] table[i].site_name@ == site_name;
        lemma_rows_named_one(table, site_name, i);
        let o = table[i].owner_name@;
        lemma_owned_rows_list(table, site_name, o);
        assert(lists_site(rows_owned_by(table, o), site_name, o));
        if has_row(table, site_name, owner) {
            let j = choose|j: int|
                0 <= j < table.len() && #[trigger] table[j].site_name@ == site_name
                    && table[j].owner_name@ == owner;
            if i != j {
                if i < j {
                    assert(table[i].site_name@ != table[j].site_name@);
                } else {
                    assert(table[j].site_name@ != table[i].site_name@);
                }
            }
        }
    } else {
        lemma_rows_named_none(table, site_name);
        assert forall|u: Seq<char>| !lists_site(#[trigger] rows_owned_by(table, u), site_name, u) by {
            lemma_owned_rows_list(table, site_name, u);
        }
    }
}

/// More than one row names the same site.
#[derive(Debug)]
pub struct DuplicateSite {
    pub site_name: String,
}

/// The owner of a site, given the rows of `sites` that name it:
/// none when no row does, the row's owner when one does, and an error when
/// several do.
pub fn site_owner_from_rows(site_name: &str, sites: &Vec<Site>) -> (r: Result<
    Option<String>,
    DuplicateSite,
>)
    ensures
        r is Err <==> sites.len() > 1,
        r matches Err(e) ==> e.site_name@ == site_name@,
        sites.len() == 0 ==> (r matches Ok(o) && o is None),
        sites.len() == 1 ==> (r matches Ok(o) && o matches Some(owner) && owner@
            == sites@[0].owner_name@),
        owner_from_rows(sites@) == match r {
            Ok(Some(o)) => Ok::<Option<Seq<char>>, ()>(Some(o@)),
            Ok(None) => Ok(None),
            Err(_) => Err(()),
        },
{
    if sites.len() > 1 {
        return Err(DuplicateSite { site_name: site_name.to_owned() });
    }
    if sites.len() == 0 {
        Ok(None)
    } else {
        Ok(Some(sites[0].owner_name.clone()))
    }
}

/// Settings of a random password generator, field for field those of
/// `passwords::PasswordGenerator`.
#[derive(Debug, Clone, Copy, PartialEq, Eq, Structural)]
pub struct PasswordPolicy {
    pub length: usize,
    pub numbers: bool,
    pub lowercase_letters: bool,
    pub uppercase_letters: bool,
    pub symbols: bool,
    pub spaces: bool,
    pub exclude_similar_characters: bool,
    pub strict: bool,
}

pub open spec fn is_digit(c: char) -> bool {
    '0' <= c <= '9'
}

pub open spec fn is_lowercase(c: char) -> bool {
    'a' <= c <= 'z'
}

pub open spec fn is_uppercase(c: char) -> bool {
    'A' <= c <= 'Z'
}

/// The printable ASCII characters that are neither letters, digits nor space.
pub open spec fn is_symbol(c: char) -> bool {
    ||| '!' <= c <= '/'
    ||| ':' <= c <= '@'
    ||| '[' <= c <= '`'
    ||| '{' <= c <= '~'
}

/// Characters easily mistaken for one another: ``iI1loO0"'`|``.
pub open spec fn is_similar(c: char) -> bool {
    ||| c == 'i'
    ||| c == 'I'
    ||| c == '1'
    ||| c == 'l'
    ||| c == 'o'
    ||| c == 'O'
    ||| c == '0'
    ||| c == '"'
    ||| c == '\''
    ||| c == '`'
    ||| c == '|'
}

/// How many kinds of characters the policy enables.
pub open spec fn kind_count(p: PasswordPolicy) -> nat {
    (if p.numbers { 1nat } else { 0nat }) + (if p.lowercase_letters { 1nat } else { 0nat }) + (
    if p.uppercase_letters { 1nat } else { 0nat }) + (if p.symbols { 1nat } else { 0nat }) + (
    if p.spaces { 1nat } else { 0nat })
}

/// The generator can produce passwords under this policy.
pub open spec fn policy_usable(p: PasswordPolicy) -> bool {
    &&& p.length > 0
    &&& kind_count(p) > 0
    &&& !(p.strict && p.length < kind_count(p))
}

/// A character the policy allows.
pub open spec fn allowed_char(p: PasswordPolicy, c: char) -> bool {
    &&& {
        ||| p.numbers && is_digit(c)
        ||| p.lowercase_letters && is_lowercase(c)
        ||| p.uppercase_letters && is_uppercase(c)
        ||| p.symbols && is_symbol(c)
        ||| p.spaces && c == ' '
    }
    &&& p.exclude_similar_characters ==> !is_similar(c)
}

/// Some character of `s` satisfies `f`.
pub open spec fn has_char_where(s: Seq<char>, f: spec_fn(char) -> bool) -> bool {
    exists|i: int| 0 <= i < s.len() && f(#[trigger] s[i])
}

/// A password the policy allows: of the set length, made of allowed
/// characters, and under a strict policy holding each enabled kind.
pub open spec fn meets_policy(p: PasswordPolicy, s: Seq<char>) -> bool {
    &&& s.len() == p.length
    &&& forall|i: int| 0 <= i < s.len() ==> allowed_char(p, #[trigger] s[i])
    &&& p.strict ==> {
        &&& p.numbers ==> has_char_where(s, |c: char| is_digit(c))
        &&& p.lowercase_letters ==> has_char_where(s, |c: char| is_lowercase(c))
        &&& p.uppercase_letters ==> has_char_where(s, |c: char| is_uppercase(c))
        &&& p.symbols ==> has_char_where(s, |c: char| is_symbol(c))
        &&& p.spaces ==> has_char_where(s, |c: char| c == ' ')
    }
}

/// Trusted: builds a `passwords::PasswordGenerator` with the policy's settings
/// and calls `generate_one`.
/// Claimed, as the crate's source shows: it fails exactly when the length is
/// 0, when no kind of character is enabled, or when a strict policy is longer
/// than its length allows, with the crate's message for each; otherwise the
/// password has the set length, is drawn from the enabled kinds (without the
/// similar characters when they are excluded) and, when strict, holds each
/// enabled kind. Which password comes out rests on chance and is left unsaid.
#[verifier::external_body]
fn generate_with_policy(policy: &PasswordPolicy) -> (r: Result<String, &'static str>)
    ensures
        r is Ok <==> policy_usable(*policy),
        r matches Ok(s) ==> meets_policy(*policy, s@),
        r matches Err(m) ==> (policy.length == 0 ==> m@ == "The length of passwords cannot be 0."@),
        r matches Err(m) ==> (policy.length > 0 && kind_count(*policy) == 0 ==> m@
            == "You need to enable at least one kind of characters."@),
        r matches Err(m) ==> (policy.length > 0 && kind_count(*policy) > 0 ==> m@
            == "The length of passwords is too short."@),
{
    passwords::PasswordGenerator {
        length: policy.length,
        numbers: policy.numbers,
        lowercase_letters: policy.lowercase_letters,
        uppercase_letters: policy.uppercase_letters,
        symbols: policy.symbols,
        spaces: policy.spaces,
        exclude_similar_characters: policy.exclude_similar_characters,
        strict: policy.strict,
    }.generate_one()
}

/// Generates a random password under the given policy, or says why the
/// policy cannot be met.
pub fn generate_password(policy: &PasswordPolicy) -> (r: Result<String, &'static str>)
    ensures
        r is Ok <==> policy_usable(*policy),
        r matches Ok(s) ==> meets_policy(*policy, s@),
        r matches Err(m) ==> (policy.length == 0 ==> m@ == "The length of passwords cannot be 0."@),
        r matches Err(m) ==> (policy.length > 0 && kind_count(*policy) == 0 ==> m@
            == "You need to enable at least one kind of characters."@),
        r matches Err(m) ==> (policy.length > 0 && kind_count(*policy) > 0 ==> m@
            == "The length of passwords is too short."@),
{
    generate_with_policy(policy)
}

/// The policy of the temporary passwords given to new users.
pub open spec fn temporary_policy() -> PasswordPolicy {
    PasswordPolicy {
        length: 16,
        numbers: true,
        lowercase_letters: true,
        uppercase_letters: true,
        symbols: false,
        spaces: false,
        exclude_similar_characters: false,
        strict: true,
    }
}

/// The policy of the temporary passwords given to new users: 16 letters and
/// digits with at least one digit, one lowercase and one uppercase letter.
pub fn temporary_password_policy() -> (p: PasswordPolicy)
    ensures
        p == temporary_policy(),
{
    PasswordPolicy {
        length: 16,
        numbers: true,
        lowercase_letters: true,
        uppercase_letters: true,
        symbols: false,
        spaces: false,
        exclude_similar_characters: false,
        strict: true,
    }
}

/// A new user and the temporary password they are told.
#[derive(Debug)]
pub struct NewUser {
    pub password: String,
    pub user: User,
}

/// `user` is the record made for `username` with temporary password `password`.
pub open spec fn is_new_user_record(username: Seq<char>, password: Seq<char>, user: User) -> bool {
    &&& user.username@ == username
    &&& !user.reset_password
    &&& meets_policy(temporary_policy(), password)
    &&& has_default_prefix(user.password_hash@)
    &&& phc_parses(user.password_hash@)
    &&& argon2_accepts(password, user.password_hash@)
}

/// What a new user's record holds: the user's name, no password reset yet,
/// an Argon2id v19 hash with the default parameters that accepts the
/// temporary password, and a temporary password of 16 letters and digits
/// with at least one digit, one lowercase and one uppercase letter.
pub proof fn lemma_new_user_record_rule(username: Seq<char>, password: Seq<char>, user: User)
    requires
        is_new_user_record(username, password, user),
    ensures
        user.username@ == username,
        !user.reset_password,
        has_default_prefix(user.password_hash@),
        phc_parses(user.password_hash@),
        argon2_accepts(password, user.password_hash@),
        password.len() == 16,
        forall|i: int|
            0 <= i < password.len() ==> ('0' <= #[trigger] password[i] <= '9' || 'a' <= password[i]
                <= 'z' || 'A' <= password[i] <= 'Z'),
        exists|i: int| 0 <= i < password.len() && '0' <= #[trigger] password[i] <= '9',
        exists|i: int| 0 <= i < password.len() && 'a' <= #[trigger] password[i] <= 'z',
        exists|i: int| 0 <= i < password.len() && 'A' <= #[trigger] password[i] <= 'Z',
{
    assert forall|i: int| 0 <= i < password.len() implies ('0' <= #[trigger] password[i] <= '9'
        || 'a' <= password[i] <= 'z' || 'A' <= password[i] <= 'Z') by {
        assert(allowed_char(temporary_policy(), password[i]));
    }
    assert(has_char_where(password, |c: char| is_digit(c)));
    assert(has_char_where(password, |c: char| is_lowercase(c)));
    assert(has_char_where(password, |c: char| is_uppercase(c)));
    let d = choose|i: int| 0 <= i < password.len() && (|c: char| is_digit(c))(#[trigger] password[i]);
    let l = choose|i: int|
        0 <= i < password.len() && (|c: char| is_lowercase(c))(#[trigger] password[i]);
    let u = choose|i: int|
        0 <= i < password.len() && (|c: char| is_uppercase(c))(#[trigger] password[i]);
    assert('0' <= password[d] <= '9');
    assert('a' <= password[l] <= 'z');
    assert('A' <= password[u] <= 'Z');
}

/// The record of a new user: a fresh temporary password and the user row
/// that stores its hash, with no password reset done yet.
pub fn new_user_record(username: &str) -> (n: NewUser)
    ensures
        is_new_user_record(username@, n.password@, n.user),
{
    let policy = temporary_password_policy();
    let password = match generate_password(&policy) {
        Ok(p) => p,
        Err(_) => unreached(),
    };
    let text: &str = password.as_str();
    proof {
        assert(is_ascii_chars(text@));
        is_ascii_spec_bytes(text);
    }
    let password_hash = hash_password(text);
    let user = User { username: username.to_owned(), password_hash, reset_password: false };
    NewUser { password, user }
}

} // verus!
