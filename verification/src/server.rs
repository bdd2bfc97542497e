//! The server's decisions: which site a host names, which file answers a
//! request, and who may create, replace or delete a site.

use vstd::prelude::*;
use vstd::string::*;

use crate::status::Status;
use crate::users::{lists_site, site_is_listed, same_text, Site};
use crate::{BASE_HOST_SUFFIX, SITES_FOLDER};

verus! {

/// The characters of each string in a sequence.
pub open spec fn texts(v: Seq<String>) -> Seq<Seq<char>> {
    v.map_values(|s: String| s@)
}

/// Appending a string appends its characters.
proof fn lemma_texts_push(v: Seq<String>, s: String)
    ensures
        texts(v.push(s)) == texts(v).push(s@),
{
    assert(texts(v.push(s)) =~= texts(v).push(s@));
}

/// `s` with `suffix` taken off its end, when it ends with it.
pub open spec fn strip_suffix(s: Seq<char>, suffix: Seq<char>) -> Option<Seq<char>> {
    if suffix.len() <= s.len() && s.subrange(s.len() - suffix.len(), s.len() as int) == suffix {
        Some(s.subrange(0, s.len() - suffix.len()))
    } else {
        None
    }
}

/// Some character of `s` is `c`.
pub open spec fn has_char(s: Seq<char>, c: char) -> bool {
    exists|i: int| 0 <= i < s.len() && #[trigger] s[i] == c
}

/// Whether some character of `s` is `c`.
fn contains_char(s: &str, c: char) -> (b: bool)
    ensures
        b == has_char(s@, c),
{
    let n: usize = s.unicode_len();
    let mut i: usize = 0;
    while i < n
        invariant
            i <= n,
            n == s@.len(),
            forall|j: int| 0 <= j < i ==> #[trigger] s@[j] != c,
        decreases n - i,
    {
        if s.get_char(i) == c {
            return true;
        }
        i = i + 1;
    }
    false
}

/// Whether `s` is exactly `.` (when `dots` is 1) or `..` (when `dots` is 2).
fn is_dots(s: &str, dots: usize) -> (b: bool)
    requires
        dots == 1 || dots == 2,
    ensures
        dots == 1 ==> b == (s@ == seq!['.']),
        dots == 2 ==> b == (s@ == seq!['.', '.']),
{
    let n: usize = s.unicode_len();
    if n != dots {
        proof {
            if dots == 1 {
                assert(seq!['.'].len() == 1);
            } else {
                assert(seq!['.', '.'].len() == 2);
            }
        }
        return false;
    }
    let mut i: usize = 0;
    while i < n
        invariant
            i <= n,
            n == s@.len(),
            n == dots,
            dots == 1 || dots == 2,
            forall|j: int| 0 <= j < i ==> #[trigger] s@[j] == '.',
        decreases n - i,
    {
        if s.get_char(i) != '.' {
            proof {
                if dots == 1 {
                    assert(s@[i as int] != seq!['.'][i as int]);
                } else {
                    let two = seq!['.', '.'];
                    assert(two[0] == '.' && two[1] == '.');
                    if i == 0 {
                        assert(s@[0] != two[0]);
                    } else {
                        assert(s@[1] != two[1]);
                    }
                }
            }
            return false;
        }
        i = i + 1;
    }
    proof {
        if dots == 1 {
            assert(s@ =~= seq!['.']);
        } else {
            assert(s@ =~= seq!['.', '.']);
        }
    }
    true
}

/// A component of a path under a site: not empty, not `.` or `..`, and with
/// no `/`, so that it names an entry inside the directory it is joined to.
pub open spec fn is_path_component(s: Seq<char>) -> bool {
    &&& s.len() > 0
    &&& s != seq!['.']
    &&& s != seq!['.', '.']
    &&& !has_char(s, '/')
}

/// Whether `s` is a component of a path under a site.
pub fn path_component(s: &str) -> (b: bool)
    ensures
        b == is_path_component(s@),
{
    s.unicode_len() > 0 && !is_dots(s, 1) && !is_dots(s, 2) && !contains_char(s, '/')
}

/// A name a site can be created under: a path component that also holds no
/// `\\` (site names are meant to be URL-safe).
pub open spec fn is_plain_name(s: Seq<char>) -> bool {
    &&& is_path_component(s)
    &&& !has_char(s, '\\')
}

/// Whether `s` is a name a site can be created under.
pub fn plain_name(s: &str) -> (b: bool)
    ensures
        b == is_plain_name(s@),
{
    path_component(s) && !contains_char(s, '\\')
}

/// A subdomain whose directory, joined to the sites folder, stays inside it:
/// anything but `..` and names holding `/`.
pub open spec fn stays_in_sites_folder(s: Seq<char>) -> bool {
    s != seq!['.', '.'] && !has_char(s, '/')
}

/// The components a path under a site may hold: a component is refused
/// exactly when it is empty, `.` or `..`, or holds a `/`. Any other text
/// (hyphens, dots inside, backslashes, any other character) is accepted.
pub proof fn lemma_path_component_rule(s: Seq<char>)
    ensures
        is_path_component(s) <==> (s.len() > 0 && s != seq!['.'] && s != seq!['.', '.']
            && forall|i: int| 0 <= i < s.len() ==> s[i] != '/'),
{
    if is_path_component(s) {
        assert forall|i: int| 0 <= i < s.len() implies s[i] != '/' by {
            if s[i] == '/' {
                assert(has_char(s, '/'));
            }
        }
    }
}

/// The names a site can be created under: a name is refused exactly when it
/// is empty, `.` or `..`, or holds a `/` or a `\`. Any other name (hyphens,
/// dots inside, letters, digits, any other character) is accepted.
pub proof fn lemma_site_name_rule(s: Seq<char>)
    ensures
        is_plain_name(s) <==> (s.len() > 0 && s != seq!['.'] && s != seq!['.', '.']
            && forall|i: int| 0 <= i < s.len() ==> s[i] != '/' && s[i] != '\\'),
{
    lemma_path_component_rule(s);
    if is_plain_name(s) {
        assert forall|i: int| 0 <= i < s.len() implies s[i] != '\\' by {
            if s[i] == '\\' {
                assert(has_char(s, '\\'));
            }
        }
    }
}

/// Every name a site can be created under is also accepted as the first
/// component of an upload path.
pub proof fn lemma_site_names_are_components(s: Seq<char>)
    ensures
        is_plain_name(s) ==> is_path_component(s),
{
    lemma_site_name_rule(s);
    lemma_path_component_rule(s);
}

/// A subdomain is served from the sites folder exactly when it is not `..`
/// and holds no `/`; the empty name and `.` name the sites folder itself.
pub proof fn lemma_subdomain_rule(s: Seq<char>)
    ensures
        stays_in_sites_folder(s) <==> (s != seq!['.', '.'] && forall|i: int|
            0 <= i < s.len() ==> s[i] != '/'),
{
    if stays_in_sites_folder(s) {
        assert forall|i: int| 0 <= i < s.len() implies s[i] != '/' by {
            if s[i] == '/' {
                assert(has_char(s, '/'));
            }
        }
    }
}

/// Stripping a suffix gives back exactly what it was appended to, and a text
/// that is not something followed by the suffix has nothing stripped.
pub proof fn lemma_strip_suffix_rule(s: Seq<char>, suffix: Seq<char>)
    ensures
        strip_suffix(s + suffix, suffix) == Some(s),
        strip_suffix(s, suffix) matches Some(p) ==> s == p + suffix,
        strip_suffix(s, suffix) is None ==> forall|p: Seq<char>| #[trigger] (p + suffix) != s,
{
    let t = s + suffix;
    assert(t.subrange(t.len() - suffix.len(), t.len() as int) =~= suffix);
    assert(t.subrange(0, t.len() - suffix.len()) =~= s);
    if let Some(p) = strip_suffix(s, suffix) {
        assert(s =~= p + suffix);
    }
    if strip_suffix(s, suffix) is None {
        assert forall|p: Seq<char>| #[trigger] (p + suffix) != s by {
            if p + suffix == s {
                assert((p + suffix).subrange(s.len() - suffix.len(), s.len() as int) =~= suffix);
            }
        }
    }
}

/// What a host gives: no host is refused as a bad request; `<site>` followed
/// by the base host suffix names `<site>` when `<site>` is not `..` and holds
/// no `/`; every other host is forwarded as not found here.
pub proof fn lemma_subdomain_answers(host: Seq<char>, site: Seq<char>)
    ensures
        subdomain_outcome(None) == Err::<Seq<char>, (bool, Status)>((true, Status::BadRequest)),
        (site != seq!['.', '.'] && forall|i: int| 0 <= i < site.len() ==> site[i] != '/')
            ==> subdomain_outcome(Some(site + BASE_HOST_SUFFIX@)) == Ok::<
            Seq<char>,
            (bool, Status),
        >(site),
        !(site != seq!['.', '.'] && forall|i: int| 0 <= i < site.len() ==> site[i] != '/')
            ==> subdomain_outcome(Some(site + BASE_HOST_SUFFIX@)) == Err::<
            Seq<char>,
            (bool, Status),
        >((false, Status::NotFound)),
        (forall|p: Seq<char>| #[trigger] (p + BASE_HOST_SUFFIX@) != host) ==> subdomain_outcome(
            Some(host),
        ) == Err::<Seq<char>, (bool, Status)>((false, Status::NotFound)),
{
    lemma_strip_suffix_rule(site, BASE_HOST_SUFFIX@);
    lemma_strip_suffix_rule(host, BASE_HOST_SUFFIX@);
    lemma_subdomain_rule(site);
    if let Some(p) = strip_suffix(host, BASE_HOST_SUFFIX@) {
        assert(host == p + BASE_HOST_SUFFIX@);
    }
}

/// `SubdomainOutcome` is seen without loss: the site found, or refused or
/// forwarded with its status.
pub proof fn lemma_subdomain_view_faithful(site: String, status: Status)
    ensures
        subdomain_view(SubdomainOutcome::Found(site)) == Ok::<Seq<char>, (bool, Status)>(site@),
        subdomain_view(SubdomainOutcome::Refused(status)) == Err::<Seq<char>, (bool, Status)>(
            (true, status),
        ),
        subdomain_view(SubdomainOutcome::Forwarded(status)) == Err::<Seq<char>, (bool, Status)>(
            (false, status),
        ),
{
}

/// `texts` keeps every string, in order.
pub proof fn lemma_texts_faithful(v: Seq<String>)
    ensures
        texts(v).len() == v.len(),
        forall|i: int| 0 <= i < v.len() ==> #[trigger] texts(v)[i] == v[i]@,
{
}

/// A path is accepted component by component.
pub proof fn lemma_all_components_rule(path: Seq<Seq<char>>)
    ensures
        all_components(path) <==> forall|j: int|
            0 <= j < path.len() ==> (path[j].len() > 0 && path[j] != seq!['.'] && path[j] != seq![
                '.',
                '.',
            ] && forall|i: int| 0 <= i < path[j].len() ==> path[j][i] != '/'),
{
    assert forall|j: int| 0 <= j < path.len() implies (is_path_component(path[j]) <==> (
    path[j].len() > 0 && path[j] != seq!['.'] && path[j] != seq!['.', '.'] && forall|i: int|
        0 <= i < path[j].len() ==> path[j][i] != '/')) by {
        lemma_path_component_rule(path[j]);
    }
}

/// The messages an upload is refused with.
pub proof fn lemma_upload_messages(site_name: String, username: String)
    ensures
        upload_error_message(UploadError::NoSiteName)
            == "no site name found in path, or site name was not valid unicode"@,
        upload_error_message(UploadError::SitesUnavailable) == "failed to retrieve user sites"@,
        upload_error_message(UploadError::BadSiteName) == "no filename was provided"@,
        upload_error_message(UploadError::BadPath) == "path is not a plain relative path"@,
        upload_error_message(UploadError::NotOwner { site_name, username }) == site_name@
            + " does not belong to "@ + username@,
{
}

/// What a request's host says about the site it asks for.
#[derive(Debug)]
pub enum SubdomainOutcome {
    /// The host is `<site>` followed by the base host suffix.
    Found(String),
    /// The request has no host: refused with the status.
    Refused(Status),
    /// The host is not `<site>` under the base host for a site that stays in
    /// the sites folder: passed on to the other routes.
    Forwarded(Status),
}

/// The site named by the request's host.
pub open spec fn subdomain_outcome(host: Option<Seq<char>>) -> Result<Seq<char>, (bool, Status)> {
    match host {
        None => Err((true, Status::BadRequest)),
        Some(h) => match strip_suffix(h, BASE_HOST_SUFFIX@) {
            Some(site) => if stays_in_sites_folder(site) {
                Ok(site)
            } else {
                Err((false, Status::NotFound))
            },
            None => Err((false, Status::NotFound)),
        },
    }
}

/// `SubdomainOutcome` seen as a spec value: the site, or whether the request
/// was refused (rather than forwarded) with which status.
pub open spec fn subdomain_view(o: SubdomainOutcome) -> Result<Seq<char>, (bool, Status)> {
    match o {
        SubdomainOutcome::Found(s) => Ok(s@),
        SubdomainOutcome::Refused(st) => Err((true, st)),
        SubdomainOutcome::Forwarded(st) => Err((false, st)),
    }
}

/// The site a request's host names: the host without the base host suffix,
/// unless that is `..` or holds `/`. No host is a bad request; any other host
/// is not found here, so a host never names a directory outside the sites
/// folder.
pub fn subdomain_of(host: Option<&str>) -> (o: SubdomainOutcome)
    ensures
        subdomain_view(o) == subdomain_outcome(
            match host {
                Some(h) => Some(h@),
                None => None,
            },
        ),
{
    match host {
        None => SubdomainOutcome::Refused(Status::BadRequest),
        Some(h) => {
            let n: usize = h.unicode_len();
            let k: usize = BASE_HOST_SUFFIX.unicode_len();
            if k <= n {
                let tail = h.substring_char(n - k, n);
                if same_text(tail, BASE_HOST_SUFFIX) {
                    let site = h.substring_char(0, n - k);
                    if !is_dots(site, 2) && !contains_char(site, '/') {
                        return SubdomainOutcome::Found(site.to_owned());
                    }
                }
            }
            SubdomainOutcome::Forwarded(Status::NotFound)
        },
    }
}

/// The host of a site is found to name that site again.
pub proof fn lemma_subdomain_round_trip(site: Seq<char>)
    requires
        stays_in_sites_folder(site),
    ensures
        subdomain_outcome(Some(site + BASE_HOST_SUFFIX@)) == Ok::<Seq<char>, (bool, Status)>(site),
{
    let h = site + BASE_HOST_SUFFIX@;
    assert(h.subrange(h.len() - BASE_HOST_SUFFIX@.len(), h.len() as int) == BASE_HOST_SUFFIX@);
    assert(h.subrange(0, h.len() - BASE_HOST_SUFFIX@.len()) == site);
}

/// Copies of the strings of `v`.
fn copy_texts(v: &Vec<String>) -> (c: Vec<String>)
    ensures
        texts(c@) == texts(v@),
{
    let mut c: Vec<String> = Vec::new();
    let mut i: usize = 0;
    while i < v.len()
        invariant
            i <= v.len(),
            texts(c@) == texts(v@.subrange(0, i as int)),
        decreases v.len() - i,
    {
        let ghost before = c@;
        c.push(v[i].clone());
        proof {
            lemma_texts_push(before, c@.last());
            lemma_texts_push(v@.subrange(0, i as int), v@[i as int]);
        }
        assert(v@.subrange(0, i + 1) == v@.subrange(0, i as int).push(v@[i as int]));
        i = i + 1;
    }
    assert(v@.subrange(0, v.len() as int) == v@);
    c
}

/// The path, as components, of a file of a site: the sites folder, the site,
/// then the file's components.
pub fn site_file_path(subdomain: &str, file: &Vec<String>) -> (p: Vec<String>)
    ensures
        texts(p@) == seq![SITES_FOLDER@, subdomain@] + texts(file@),
{
    let mut p: Vec<String> = Vec::new();
    p.push(SITES_FOLDER.to_owned());
    p.push(subdomain.to_owned());
    let mut i: usize = 0;
    while i < file.len()
        invariant
            i <= file.len(),
            texts(p@) == seq![SITES_FOLDER@, subdomain@] + texts(file@.subrange(0, i as int)),
        decreases file.len() - i,
    {
        let ghost before = p@;
        p.push(file[i].clone());
        proof {
            lemma_texts_push(before, p@.last());
            lemma_texts_push(file@.subrange(0, i as int), file@[i as int]);
        }
        assert(file@.subrange(0, i + 1) == file@.subrange(0, i as int).push(file@[i as int]));
        i = i + 1;
    }
    assert(file@.subrange(0, file.len() as int) == file@);
    p
}

/// The page served for a directory.
pub const INDEX_PAGE: &'static str = "index.html";

/// The file that answers a request for `path`: the path itself when it is a
/// file, otherwise the index page inside it.
pub fn file_to_serve(path: &Vec<String>, path_is_file: bool) -> (p: Vec<String>)
    ensures
        path_is_file ==> texts(p@) == texts(path@),
        !path_is_file ==> texts(p@) == texts(path@).push(INDEX_PAGE@),
{
    let mut p = copy_texts(path);
    if !path_is_file {
        let ghost before = p@;
        p.push(INDEX_PAGE.to_owned());
        proof {
            lemma_texts_push(before, p@.last());
        }
    }
    p
}

/// Answer to a new password that is too short.
pub const PASSWORD_TOO_SHORT: &'static str = "Password must be at least 8 characters long";

/// Answer to a password change that was stored.
pub const PASSWORD_CHANGED: &'static str = "Successfully changed password";

/// Answer to a password change that could not be stored.
pub const PASSWORD_CHANGE_FAILED: &'static str = "Reset password failed";

/// Fewest bytes a new password may have.
pub const MIN_PASSWORD_BYTES: usize = 8;

/// Whether a new password is long enough: at least 8 bytes.
pub fn check_new_password(password: &str) -> (r: Result<(), &'static str>)
    ensures
        r is Ok <==> password.len() >= MIN_PASSWORD_BYTES,
        r is Err ==> r == Err::<(), &'static str>(PASSWORD_TOO_SHORT),
{
    if password.len() < MIN_PASSWORD_BYTES {
        Err(PASSWORD_TOO_SHORT)
    } else {
        Ok(())
    }
}

/// The answer to a password change, given whether it was stored.
pub fn password_change_reply(stored: bool) -> (r: Result<&'static str, &'static str>)
    ensures
        stored ==> r == Ok::<&'static str, &'static str>(PASSWORD_CHANGED),
        !stored ==> r == Err::<&'static str, &'static str>(PASSWORD_CHANGE_FAILED),
{
    if stored {
        Ok(PASSWORD_CHANGED)
    } else {
        Err(PASSWORD_CHANGE_FAILED)
    }
}

/// Why an upload is refused.
#[derive(Debug)]
pub enum UploadError {
    /// The upload path names no site.
    NoSiteName,
    /// The user's sites could not be looked up.
    SitesUnavailable,
    /// The first component is empty, `.`, `..` or holds `/`.
    BadSiteName,
    /// A later component is empty, `.`, `..` or holds `/`.
    BadPath,
    /// The site is not the user's.
    NotOwner { site_name: String, username: String },
}

/// The message an upload is refused with.
pub open spec fn upload_error_message(e: UploadError) -> Seq<char> {
    match e {
        UploadError::NoSiteName => "no site name found in path, or site name was not valid unicode"@,
        UploadError::SitesUnavailable => "failed to retrieve user sites"@,
        UploadError::BadSiteName => "no filename was provided"@,
        UploadError::BadPath => "path is not a plain relative path"@,
        UploadError::NotOwner { site_name, username } => site_name@ + " does not belong to "@
            + username@,
    }
}

impl UploadError {
    /// The message the upload is refused with.
    pub fn message(&self) -> (m: String)
        ensures
            m@ == upload_error_message(*self),
    {
        match self {
            UploadError::NoSiteName => "no site name found in path, or site name was not valid unicode".to_owned(),
            UploadError::SitesUnavailable => "failed to retrieve user sites".to_owned(),
            UploadError::BadSiteName => "no filename was provided".to_owned(),
            UploadError::BadPath => "path is not a plain relative path".to_owned(),
            UploadError::NotOwner { site_name, username } => {
                let mut m = site_name.clone();
                m.append(" does not belong to ");
                m.append(username.as_str());
                m
            },
        }
    }
}

/// Where an accepted upload goes: the directory to create and the file to
/// write, both as components starting at the sites folder.
#[derive(Debug)]
pub struct UploadPlan {
    pub directory: Vec<String>,
    pub file: Vec<String>,
}

/// Every component of a path is a path component (see `is_path_component`).
pub open spec fn all_components(path: Seq<Seq<char>>) -> bool {
    forall|j: int| 0 <= j < path.len() ==> is_path_component(#[trigger] path[j])
}

/// Decides an upload of the file at `path` (components, the first naming the
/// site) by `username`, given the user's sites as looked up (`None` when the
/// lookup failed). The upload is accepted exactly when no component is
/// empty, `.`, `..` or holds `/`, and the site is the user's; the file then
/// goes under that site's directory inside the sites folder.
pub fn plan_upload(path: &Vec<String>, username: &str, user_sites: &Option<Vec<Site>>) -> (r: Result<
    UploadPlan,
    UploadError,
>)
    ensures
        path@.len() == 0 ==> r matches Err(UploadError::NoSiteName),
        path@.len() > 0 && user_sites is None ==> r matches Err(UploadError::SitesUnavailable),
        path@.len() > 0 && user_sites is Some && !is_path_component(path@[0]@) ==> r matches Err(
            UploadError::BadSiteName,
        ),
        path@.len() > 0 && user_sites is Some && is_path_component(path@[0]@) && !all_components(
            texts(path@),
        ) ==> r matches Err(UploadError::BadPath),
        user_sites matches Some(sites) && path@.len() > 0 && all_components(texts(path@)) && !lists_site(
            sites@,
            path@[0]@,
            username@,
        ) ==> (r matches Err(UploadError::NotOwner { site_name, username: user }) && site_name@
            == path@[0]@ && user@ == username@),
        r is Ok <==> (user_sites matches Some(sites) && path@.len() > 0 && all_components(texts(path@))
            && lists_site(sites@, path@[0]@, username@)),
        r matches Ok(plan) ==> texts(plan.file@) == seq![SITES_FOLDER@] + texts(path@) && texts(
            plan.directory@,
        ) == seq![SITES_FOLDER@] + texts(path@).drop_last(),
{
    if path.len() == 0 {
        return Err(UploadError::NoSiteName);
    }
    assert(texts(path@).len() == path@.len());
    assert(texts(path@)[0] == path@[0]@);
    let sites = match user_sites {
        Some(sites) => sites,
        None => {
            return Err(UploadError::SitesUnavailable);
        },
    };
    let site_name = path[0].as_str();
    if !path_component(site_name) {
        return Err(UploadError::BadSiteName);
    }
    let mut k: usize = 1;
    while k < path.len()
        invariant
            1 <= k <= path.len(),
            user_sites is Some,
            is_path_component(path@[0]@),
            forall|j: int| 0 <= j < k ==> is_path_component(#[trigger] texts(path@)[j]),
        decreases path.len() - k,
    {
        if !path_component(path[k].as_str()) {
            assert(!is_path_component(texts(path@)[k as int]));
            return Err(UploadError::BadPath);
        }
        k = k + 1;
    }
    assert(all_components(texts(path@)));
    if !site_is_listed(sites, site_name, username) {
        return Err(
            UploadError::NotOwner { site_name: site_name.to_owned(), username: username.to_owned() },
        );
    }
    let mut file: Vec<String> = Vec::new();
    file.push(SITES_FOLDER.to_owned());
    let mut directory: Vec<String> = Vec::new();
    directory.push(SITES_FOLDER.to_owned());
    let last: usize = path.len() - 1;
    let mut i: usize = 0;
    while i < path.len()
        invariant
            i <= path.len(),
            last + 1 == path.len(),
            texts(file@) == seq![SITES_FOLDER@] + texts(path@.subrange(0, i as int)),
            texts(directory@) == seq![SITES_FOLDER@] + texts(
                path@.subrange(0, if i <= last { i as int } else { last as int }),
            ),
        decreases path.len() - i,
    {
        let ghost file_before = file@;
        file.push(path[i].clone());
        proof {
            lemma_texts_push(file_before, file@.last());
            lemma_texts_push(path@.subrange(0, i as int), path@[i as int]);
            assert(path@.subrange(0, i + 1) == path@.subrange(0, i as int).push(path@[i as int]));
        }
        if i < last {
            let ghost directory_before = directory@;
            directory.push(path[i].clone());
            proof {
                lemma_texts_push(directory_before, directory@.last());
            }
        }
        i = i + 1;
    }
    proof {
        assert(path@.subrange(0, path.len() as int) == path@);
        assert(texts(path@).drop_last() == texts(path@.subrange(0, last as int)));
    }
    Ok(UploadPlan { directory, file })
}

/// Once a site's row is among a user's sites, that user may upload to it
/// and delete it.
pub proof fn lemma_registered_site_is_usable(sites: Seq<Site>, row: Site)
    ensures
        lists_site(sites.push(row), row.site_name@, row.owner_name@),
{
    assert(sites.push(row)[sites.len() as int] == row);
}

/// Answer to a deletion when the user's sites could not be looked up.
pub const SITES_UNAVAILABLE: &'static str = "failed to retrieve user sites";

/// Answer to a request that names no site.
pub const NO_SITE_NAME: &'static str = "no site name was provided";

/// Answer to a deletion of another user's site.
pub const NOT_YOUR_SITE: &'static str = "site does not belong to user";

/// Answer to a deletion of a site that has no directory.
pub const SITE_ALREADY_GONE: &'static str = "site already doesn't exist";

/// Answer to a deletion whose directory could not be removed.
pub const DELETE_FAILED: &'static str = "failed to delete site";

/// Answer to a deletion that removed the site's directory.
pub const SITE_DELETED: &'static str = "successfully deleted site";

/// Decides whether `username` may delete `site_name`, given the user's sites
/// as looked up (`None` when the lookup failed): only a site of the user's
/// own, under a plain name, so that only a directory inside the sites folder
/// is ever removed.
pub fn check_site_deletion(site_name: &str, username: &str, user_sites: &Option<Vec<Site>>) -> (r:
    Result<(), &'static str>)
    ensures
        user_sites is None ==> r == Err::<(), &'static str>(SITES_UNAVAILABLE),
        user_sites is Some && !is_plain_name(site_name@) ==> r == Err::<(), &'static str>(
            NO_SITE_NAME,
        ),
        user_sites matches Some(sites) && is_plain_name(site_name@) && !lists_site(
            sites@,
            site_name@,
            username@,
        ) ==> r == Err::<(), &'static str>(NOT_YOUR_SITE),
        r is Ok <==> (user_sites matches Some(sites) && is_plain_name(site_name@) && lists_site(
            sites@,
            site_name@,
            username@,
        )),
{
    let sites = match user_sites {
        Some(sites) => sites,
        None => {
            return Err(SITES_UNAVAILABLE);
        },
    };
    if !plain_name(site_name) {
        return Err(NO_SITE_NAME);
    }
    if !site_is_listed(sites, site_name, username) {
        return Err(NOT_YOUR_SITE);
    }
    Ok(())
}

/// The answer to an allowed deletion, given whether the site's directory
/// existed and, when it did, whether removing it succeeded.
pub fn deletion_reply(directory_existed: bool, removed: bool) -> (r: Result<&'static str, &'static str>)
    ensures
        !directory_existed ==> r == Ok::<&'static str, &'static str>(SITE_ALREADY_GONE),
        directory_existed && !removed ==> r == Err::<&'static str, &'static str>(DELETE_FAILED),
        directory_existed && removed ==> r == Ok::<&'static str, &'static str>(SITE_DELETED),
{
    if !directory_existed {
        Ok(SITE_ALREADY_GONE)
    } else if !removed {
        Err(DELETE_FAILED)
    } else {
        Ok(SITE_DELETED)
    }
}

/// Answer to creating a site that another user owns.
pub const OWNED_BY_OTHER: &'static str = "site belongs to a different user";

/// Answer to creating a site whose owner could not be looked up.
pub const OWNER_UNKNOWN: &'static str = "failed to verify current owner of site";

/// Answer to creating a site that could not be stored.
pub const CREATE_FAILED: &'static str = "failed to create new site";

/// A site name must be a plain name (see `is_plain_name`); any other name
/// is answered as naming no site.
pub fn check_site_name(site_name: &str) -> (r: Result<(), &'static str>)
    ensures
        !is_plain_name(site_name@) ==> r == Err::<(), &'static str>(NO_SITE_NAME),
        is_plain_name(site_name@) ==> r is Ok,
{
    if !plain_name(site_name) {
        Err(NO_SITE_NAME)
    } else {
        Ok(())
    }
}

/// What to do with a request to create a site.
#[derive(Debug, PartialEq, Eq)]
pub enum NewSiteStep {
    /// Answer at once.
    Reply(Result<(), &'static str>),
    /// Record the site as the user's.
    Register,
}

/// The decision of `new_site_step`, over the characters of the names.
pub open spec fn new_site_decision(username: Seq<char>, owner: Result<Option<Seq<char>>, ()>) -> NewSiteStep {
    match owner {
        Err(()) => NewSiteStep::Reply(Err(OWNER_UNKNOWN)),
        Ok(None) => NewSiteStep::Register,
        Ok(Some(current)) => if current == username {
            NewSiteStep::Reply(Ok(()))
        } else {
            NewSiteStep::Reply(Err(OWNED_BY_OTHER))
        },
    }
}

/// An owner lookup seen through the characters of the owner's name.
pub open spec fn owner_lookup_view(owner: Result<Option<String>, ()>) -> Result<Option<Seq<char>>, ()> {
    match owner {
        Err(()) => Err(()),
        Ok(None) => Ok(None),
        Ok(Some(o)) => Ok(Some(o@)),
    }
}

/// How a creation request is answered from the owner lookup: a failed
/// lookup is answered with `OWNER_UNKNOWN`, an unowned site is registered,
/// the owner's own request is accepted without change, and anybody else's is
/// refused with `OWNED_BY_OTHER`.
pub proof fn lemma_new_site_rule(username: Seq<char>, current: Seq<char>)
    ensures
        new_site_decision(username, Err(())) == NewSiteStep::Reply(Err(OWNER_UNKNOWN)),
        new_site_decision(username, Ok(None)) == NewSiteStep::Register,
        new_site_decision(username, Ok(Some(username))) == NewSiteStep::Reply(Ok(())),
        current != username ==> new_site_decision(username, Ok(Some(current)))
            == NewSiteStep::Reply(Err(OWNED_BY_OTHER)),
{
}

/// An owner lookup is seen without loss.
pub proof fn lemma_owner_lookup_view_faithful(owner: String)
    ensures
        owner_lookup_view(Err(())) == Err::<Option<Seq<char>>, ()>(()),
        owner_lookup_view(Ok(None)) == Ok::<Option<Seq<char>>, ()>(None),
        owner_lookup_view(Ok(Some(owner))) == Ok::<Option<Seq<char>>, ()>(Some(owner@)),
{
}

/// Decides a request by `username` to create a site, given its owner as
/// looked up (`Err` when the lookup failed): a site with no owner is
/// registered to the user, one the user already owns is accepted as it is,
/// and one owned by anybody else is refused. A site never changes owner.
pub fn new_site_step(username: &str, owner: &Result<Option<String>, ()>) -> (step: NewSiteStep)
    ensures
        owner is Err ==> step == NewSiteStep::Reply(Err(OWNER_UNKNOWN)),
        owner matches Ok(o) && o is None ==> step == NewSiteStep::Register,
        owner matches Ok(o) && o matches Some(current) && current@ == username@ ==> step
            == NewSiteStep::Reply(Ok(())),
        owner matches Ok(o) && o matches Some(current) && current@ != username@ ==> step
            == NewSiteStep::Reply(Err(OWNED_BY_OTHER)),
        step == new_site_decision(username@, owner_lookup_view(*owner)),
{
    match owner {
        Err(()) => NewSiteStep::Reply(Err(OWNER_UNKNOWN)),
        Ok(None) => NewSiteStep::Register,
        Ok(Some(current)) => {
            if same_text(current.as_str(), username) {
                NewSiteStep::Reply(Ok(()))
            } else {
                NewSiteStep::Reply(Err(OWNED_BY_OTHER))
            }
        },
    }
}

/// The answer to creating a site, given whether registering it succeeded.
pub fn registration_reply(registered: bool) -> (r: Result<(), &'static str>)
    ensures
        registered ==> r is Ok,
        !registered ==> r == Err::<(), &'static str>(CREATE_FAILED),
{
    if registered {
        Ok(())
    } else {
        Err(CREATE_FAILED)
    }
}

/// A request that reaches the server, as far as the sites table is concerned.
pub enum SiteRequest {
    /// Create `site_name` for `username`; `stored` says whether writing the
    /// new row, when one is written, succeeded.
    Create { site_name: Seq<char>, username: Seq<char>, stored: bool },
    /// Delete the files of a site (the table is left alone).
    Delete { site_name: Seq<char>, username: Seq<char> },
    /// Upload a file to a site (the table is left alone).
    Upload { path: Seq<Seq<char>>, username: Seq<char> },
    /// Change a password (the table is left alone).
    SetPassword { username: Seq<char> },
}

/// The owner a table gives a site, as looked up by `get_site_owner`.
pub open spec fn table_owner(table: Map<Seq<char>, Seq<char>>, site_name: Seq<char>) -> Result<
    Option<Seq<char>>,
    (),
> {
    if table.contains_key(site_name) {
        Ok(Some(table[site_name]))
    } else {
        Ok(None)
    }
}

/// The sites table (site name to owner, the name being the key) after one
/// request: only a creation that `check_site_name` and `new_site_step` let
/// through, and whose row was stored, adds a row.
pub open spec fn apply_request(table: Map<Seq<char>, Seq<char>>, request: SiteRequest) -> Map<
    Seq<char>,
    Seq<char>,
> {
    match request {
        SiteRequest::Create { site_name, username, stored } => if is_plain_name(site_name) && stored
            && new_site_decision(username, table_owner(table, site_name)) == NewSiteStep::Register {
            table.insert(site_name, username)
        } else {
            table
        },
        _ => table,
    }
}

/// The sites table after a sequence of requests.
pub open spec fn apply_requests(table: Map<Seq<char>, Seq<char>>, requests: Seq<SiteRequest>) -> Map<
    Seq<char>,
    Seq<char>,
>
    decreases requests.len(),
{
    if requests.len() == 0 {
        table
    } else {
        apply_requests(apply_request(table, requests[0]), requests.drop_first())
    }
}

/// Over any sequence of requests, a site once owned keeps its owner: its row
/// stays and no other user is ever given it; rows are only ever added.
pub proof fn lemma_owners_are_permanent(table: Map<Seq<char>, Seq<char>>, requests: Seq<SiteRequest>)
    ensures
        forall|s: Seq<char>|
            #[trigger] table.contains_key(s) ==> apply_requests(table, requests).contains_key(s)
                && apply_requests(table, requests)[s] == table[s],
    decreases requests.len(),
{
    if requests.len() > 0 {
        let next = apply_request(table, requests[0]);
        assert forall|s: Seq<char>| #[trigger] table.contains_key(s) implies next.contains_key(s)
            && next[s] == table[s] by {
            match requests[0] {
                SiteRequest::Create { site_name, username, stored } => {
                    if is_plain_name(site_name) && stored && new_site_decision(
                        username,
                        table_owner(table, site_name),
                    ) == NewSiteStep::Register {
                        assert(!table.contains_key(site_name));
                    }
                },
                _ => {},
            }
        }
        lemma_owners_are_permanent(next, requests.drop_first());
    }
}

/// A creation request for a site nobody owns, under a plain name and with its
/// row stored, gives the site to the requesting user.
pub proof fn lemma_unowned_site_goes_to_creator(
    table: Map<Seq<char>, Seq<char>>,
    site_name: Seq<char>,
    username: Seq<char>,
)
    requires
        is_plain_name(site_name),
        !table.contains_key(site_name),
    ensures
        apply_request(table, SiteRequest::Create { site_name, username, stored: true })
            == table.insert(site_name, username),
{
}

} // verus!
