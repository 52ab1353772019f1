use bluestone::error::Error;
use bluestone::handler::server::{get_servers, needs_default_server, resolve_servers, ServerCache};

fn names(names: &[&str]) -> Vec<String> {
    names.iter().map(|name| name.to_string()).collect()
}

#[test]
fn the_configured_server_stands_in_for_missing_arguments() {
    let mut cache = ServerCache::new();
    assert_eq!(
        get_servers(&mut cache, names(&[]), Some("survival".to_string())),
        Ok(names(&["survival"]))
    );
}

#[test]
fn arguments_are_the_servers_whatever_is_configured() {
    let args = names(&["alpha", "beta"]);
    assert_eq!(resolve_servers(args.clone(), Some("survival".to_string())), Ok(args.clone()));
    assert_eq!(resolve_servers(args.clone(), Some(String::new())), Ok(args.clone()));
    assert_eq!(resolve_servers(args.clone(), None), Ok(args.clone()));
    let mut cache = ServerCache::new();
    assert_eq!(get_servers(&mut cache, args.clone(), Some("survival".to_string())), Ok(args));
}

#[test]
fn without_arguments_and_configured_server_there_are_no_servers() {
    assert_eq!(resolve_servers(names(&[]), None), Err(Error::NoServers));
    assert_eq!(resolve_servers(names(&[]), Some(String::new())), Err(Error::NoServers));
    let mut cache = ServerCache::new();
    assert_eq!(get_servers(&mut cache, names(&[]), None), Err(Error::NoServers));
    assert_eq!(get_servers(&mut cache, names(&[]), Some(String::new())), Err(Error::NoServers));
    assert_eq!(cache.get(), None);
}

#[test]
fn an_argument_may_be_empty_or_repeated() {
    assert_eq!(resolve_servers(names(&[""]), None), Ok(names(&[""])));
    assert_eq!(resolve_servers(names(&["a", "a"]), None), Ok(names(&["a", "a"])));
}

#[test]
fn servers_are_found_once_and_kept() {
    let mut cache = ServerCache::new();
    assert_eq!(cache.get(), None);
    let first = get_servers(&mut cache, names(&["alpha", "beta"]), None);
    assert_eq!(first, Ok(names(&["alpha", "beta"])));
    assert_eq!(cache.get(), Some(names(&["alpha", "beta"])));
    for _ in 0..3 {
        assert_eq!(get_servers(&mut cache, names(&["gamma"]), None), first);
        assert_eq!(get_servers(&mut cache, names(&[]), Some("survival".to_string())), first);
        assert_eq!(get_servers(&mut cache, names(&[]), None), first);
    }
    assert_eq!(cache.get(), Some(names(&["alpha", "beta"])));
}

#[test]
fn a_failed_look_up_keeps_nothing() {
    let mut cache = ServerCache::new();
    assert_eq!(get_servers(&mut cache, names(&[]), None), Err(Error::NoServers));
    assert_eq!(cache.get(), None);
    assert_eq!(
        get_servers(&mut cache, names(&[]), Some("creative".to_string())),
        Ok(names(&["creative"]))
    );
    assert_eq!(get_servers(&mut cache, names(&[]), None), Ok(names(&["creative"])));
}

#[test]
fn the_configuration_is_needed_only_without_arguments() {
    assert!(needs_default_server(&names(&[])));
    assert!(!needs_default_server(&names(&["alpha"])));
    assert!(!needs_default_server(&names(&["alpha", "beta"])));
}
