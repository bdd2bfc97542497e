use bleebo::server::{
    check_new_password, check_site_deletion, check_site_name, deletion_reply, file_to_serve,
    new_site_step, password_change_reply, plan_upload, registration_reply, site_file_path,
    subdomain_of, NewSiteStep, SubdomainOutcome, UploadError,
};
use bleebo::status::Status;
use bleebo::users::Site;

fn site(name: &str, owner: &str) -> Site {
    Site { site_name: name.to_string(), owner_name: owner.to_string() }
}

fn strings(v: &[&str]) -> Vec<String> {
    v.iter().map(|s| s.to_string()).collect()
}

#[test]
fn subdomains() {
    assert!(matches!(subdomain_of(Some("hello.bleebo.dev")), SubdomainOutcome::Found(s) if s == "hello"));
    assert!(matches!(subdomain_of(Some("a.b.bleebo.dev")), SubdomainOutcome::Found(s) if s == "a.b"));
    assert!(matches!(subdomain_of(Some(".bleebo.dev")), SubdomainOutcome::Found(s) if s.is_empty()));
    assert!(matches!(subdomain_of(Some("..bleebo.dev")), SubdomainOutcome::Found(s) if s == "."));
    assert!(matches!(subdomain_of(Some("...bleebo.dev")), SubdomainOutcome::Forwarded(Status::NotFound)));
    assert!(matches!(subdomain_of(Some("a\\b.bleebo.dev")), SubdomainOutcome::Found(s) if s == "a\\b"));
    assert!(matches!(subdomain_of(Some("bleebo.dev")), SubdomainOutcome::Forwarded(Status::NotFound)));
    assert!(matches!(subdomain_of(Some("example.com")), SubdomainOutcome::Forwarded(Status::NotFound)));
    assert!(matches!(subdomain_of(None), SubdomainOutcome::Refused(Status::BadRequest)));
}

#[test]
fn served_files() {
    let p = site_file_path("hello", &strings(&["css", "main.css"]));
    assert_eq!(p, strings(&["site", "hello", "css", "main.css"]));
    assert_eq!(file_to_serve(&p, true), p);
    let d = site_file_path("hello", &vec![]);
    assert_eq!(file_to_serve(&d, false), strings(&["site", "hello", "index.html"]));
}

#[test]
fn new_password_length() {
    assert_eq!(check_new_password("1234567"), Err("Password must be at least 8 characters long"));
    assert_eq!(check_new_password("12345678"), Ok(()));
    // Eight bytes in four characters.
    assert_eq!(check_new_password("éééé"), Ok(()));
    assert_eq!(password_change_reply(true), Ok("Successfully changed password"));
    assert_eq!(password_change_reply(false), Err("Reset password failed"));
}

#[test]
fn uploads_only_to_own_sites() {
    let sites = Some(vec![site("blog", "alice"), site("shop", "bob")]);
    let plan = plan_upload(&strings(&["blog", "img", "cat.png"]), "alice", &sites).unwrap();
    assert_eq!(plan.file, strings(&["site", "blog", "img", "cat.png"]));
    assert_eq!(plan.directory, strings(&["site", "blog", "img"]));
    let plan = plan_upload(&strings(&["blog"]), "alice", &sites).unwrap();
    assert_eq!(plan.file, strings(&["site", "blog"]));
    assert_eq!(plan.directory, strings(&["site"]));

    let e = plan_upload(&strings(&["shop", "index.html"]), "alice", &sites).unwrap_err();
    assert_eq!(e.message(), "shop does not belong to alice");
    assert!(matches!(plan_upload(&vec![], "alice", &sites), Err(UploadError::NoSiteName)));
    assert!(matches!(plan_upload(&strings(&["blog"]), "alice", &None), Err(UploadError::SitesUnavailable)));
    assert!(matches!(plan_upload(&strings(&["", "x"]), "alice", &sites), Err(UploadError::BadSiteName)));
    assert!(matches!(plan_upload(&strings(&["..", "db"]), "alice", &sites), Err(UploadError::BadSiteName)));
    assert!(matches!(plan_upload(&strings(&["blog", "..", "x"]), "alice", &sites), Err(UploadError::BadPath)));
    assert_eq!(UploadError::BadPath.message(), "path is not a plain relative path");
    let plan = plan_upload(&strings(&["blog", "a\\b"]), "alice", &sites).unwrap();
    assert_eq!(plan.file, strings(&["site", "blog", "a\\b"]));
    let e = plan_upload(&strings(&["shop", "a\\b"]), "alice", &sites).unwrap_err();
    assert_eq!(e.message(), "shop does not belong to alice");
    let e = plan_upload(&strings(&["a\\b", "x"]), "alice", &sites).unwrap_err();
    assert_eq!(e.message(), "a\\b does not belong to alice");
    assert_eq!(UploadError::NoSiteName.message(), "no site name found in path, or site name was not valid unicode");
    assert_eq!(UploadError::SitesUnavailable.message(), "failed to retrieve user sites");
    assert_eq!(UploadError::BadSiteName.message(), "no filename was provided");
}

#[test]
fn deletes_only_own_sites() {
    let sites = Some(vec![site("blog", "alice"), site("shop", "bob")]);
    assert_eq!(check_site_deletion("blog", "alice", &sites), Ok(()));
    assert_eq!(check_site_deletion("shop", "alice", &sites), Err("site does not belong to user"));
    assert_eq!(check_site_deletion("", "alice", &sites), Err("no site name was provided"));
    let with_dots = Some(vec![site("..", "alice"), site(".", "alice")]);
    assert_eq!(check_site_deletion("..", "alice", &with_dots), Err("no site name was provided"));
    assert_eq!(check_site_deletion(".", "alice", &with_dots), Err("no site name was provided"));
    assert_eq!(check_site_deletion("blog", "alice", &None), Err("failed to retrieve user sites"));
    assert_eq!(deletion_reply(false, false), Ok("site already doesn't exist"));
    assert_eq!(deletion_reply(true, false), Err("failed to delete site"));
    assert_eq!(deletion_reply(true, true), Ok("successfully deleted site"));
}

#[test]
fn sites_never_change_owner() {
    assert_eq!(check_site_name(""), Err("no site name was provided"));
    assert_eq!(check_site_name("blog"), Ok(()));
    assert_eq!(check_site_name(".."), Err("no site name was provided"));
    assert_eq!(check_site_name("."), Err("no site name was provided"));
    assert_eq!(check_site_name("a/b"), Err("no site name was provided"));
    assert_eq!(check_site_name("a\\b"), Err("no site name was provided"));
    assert_eq!(check_site_name("..x"), Ok(()));
    assert_eq!(new_site_step("alice", &Ok(None)), NewSiteStep::Register);
    assert_eq!(new_site_step("alice", &Ok(Some("alice".to_string()))), NewSiteStep::Reply(Ok(())));
    assert_eq!(
        new_site_step("alice", &Ok(Some("bob".to_string()))),
        NewSiteStep::Reply(Err("site belongs to a different user"))
    );
    assert_eq!(
        new_site_step("alice", &Err(())),
        NewSiteStep::Reply(Err("failed to verify current owner of site"))
    );
    assert_eq!(registration_reply(true), Ok(()));
    assert_eq!(registration_reply(false), Err("failed to create new site"));
}
