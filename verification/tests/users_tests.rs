use bleebo::auth_guard::{authenticate, UserLookup};
use bleebo::password::verify_password;
use bleebo::users::{
    generate_password, site_is_listed, new_user_record, readable_rows, site_owner_from_rows,
    temporary_password_policy, PasswordPolicy, Site,
};

fn site(name: &str, owner: &str) -> Site {
    Site { site_name: name.to_string(), owner_name: owner.to_string() }
}

fn policy(length: usize) -> PasswordPolicy {
    PasswordPolicy {
        length,
        numbers: true,
        lowercase_letters: true,
        uppercase_letters: true,
        symbols: false,
        spaces: false,
        exclude_similar_characters: false,
        strict: true,
    }
}

#[test]
fn temporary_policy_settings() {
    assert_eq!(temporary_password_policy(), policy(16));
}

#[test]
fn generated_password_meets_policy() {
    for _ in 0..20 {
        let p = generate_password(&temporary_password_policy()).unwrap();
        assert_eq!(p.chars().count(), 16);
        assert!(p.chars().all(|c| c.is_ascii_alphanumeric()));
        assert!(p.chars().any(|c| c.is_ascii_digit()));
        assert!(p.chars().any(|c| c.is_ascii_lowercase()));
        assert!(p.chars().any(|c| c.is_ascii_uppercase()));
    }
}

#[test]
fn generator_refusals() {
    assert_eq!(generate_password(&policy(0)), Err("The length of passwords cannot be 0."));
    let none = PasswordPolicy { numbers: false, lowercase_letters: false, uppercase_letters: false, ..policy(8) };
    assert_eq!(generate_password(&none), Err("You need to enable at least one kind of characters."));
    assert_eq!(generate_password(&policy(2)), Err("The length of passwords is too short."));
}

#[test]
fn excluded_similar_characters_stay_out() {
    let p = PasswordPolicy { symbols: true, exclude_similar_characters: true, ..policy(64) };
    let s = generate_password(&p).unwrap();
    assert_eq!(s.chars().count(), 64);
    assert!(s.chars().all(|c| !"iI1loO0\"'`|".contains(c)));
}

#[test]
fn new_user_signs_in_with_temporary_password() {
    let n = new_user_record("bob");
    assert_eq!(n.user.username, "bob");
    assert!(!n.user.reset_password);
    assert_eq!(n.password.chars().count(), 16);
    assert!(n.user.password_hash.starts_with("$argon2id$v=19$m=19456,t=2,p=1$"));
    assert_eq!(verify_password(&n.password, &n.user.password_hash), Ok(()));
    match authenticate(&n.password, UserLookup::Found(n.user)) {
        Ok(g) => assert_eq!(g.0, "bob"),
        Err(s) => panic!("refused with {:?}", s),
    }
}

#[test]
fn readable_rows_keep_order() {
    let rows = vec![Some(site("a", "x")), None, Some(site("b", "y")), None];
    assert_eq!(readable_rows(rows), vec![site("a", "x"), site("b", "y")]);
    let empty: Vec<Option<Site>> = vec![None];
    assert!(readable_rows(empty).is_empty());
}

#[test]
fn owner_from_rows() {
    assert_eq!(site_owner_from_rows("a", &vec![]).unwrap(), None);
    assert_eq!(site_owner_from_rows("a", &vec![site("a", "x")]).unwrap(), Some("x".to_string()));
    let e = site_owner_from_rows("a", &vec![site("a", "x"), site("a", "y")]).unwrap_err();
    assert_eq!(e.site_name, "a");
}

#[test]
fn site_listing() {
    let sites = vec![site("a", "x"), site("b", "y")];
    assert!(site_is_listed(&sites, "b", "y"));
    assert!(!site_is_listed(&sites, "b", "x"));
    assert!(!site_is_listed(&sites, "c", "y"));
    assert!(site("a", "x") == site("a", "x"));
    assert!(site("a", "x") != site("a", "y"));
}

#[test]
fn owner_and_user_lookups_agree_on_one_table() {
    let table = vec![site("blog", "alice"), site("shop", "bob"), site("wiki", "alice")];
    let named = |s: &str| -> Vec<Site> {
        table.iter().filter(|r| r.site_name == s).map(|r| site(&r.site_name, &r.owner_name)).collect()
    };
    let owned = |u: &str| -> Vec<Site> {
        table.iter().filter(|r| r.owner_name == u).map(|r| site(&r.site_name, &r.owner_name)).collect()
    };
    assert_eq!(site_owner_from_rows("wiki", &named("wiki")).unwrap(), Some("alice".to_string()));
    assert!(site_is_listed(&owned("alice"), "wiki", "alice"));
    assert!(!site_is_listed(&owned("bob"), "wiki", "bob"));
    assert_eq!(site_owner_from_rows("none", &named("none")).unwrap(), None);
    assert!(!site_is_listed(&owned("alice"), "none", "alice"));
}
