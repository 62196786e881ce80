use fantasia::args::Args;

fn some_args() -> Args {
    Args {
        conf: Some("fantasia.toml".into()),
        host: None,
        port: Some(8080),
        pguser: None,
        pgpassword: None,
        pghost: None,
        pgport: None,
        pgdatabase: None,
    }
}

#[test]
fn nothing_left_over_is_accepted() {
    let args = match some_args().checked(Vec::new()) {
        Ok(args) => args,
        Err(_) => panic!("no extra arguments were given"),
    };
    assert_eq!(args.conf.as_deref(), Some("fantasia.toml"));
    assert_eq!(args.port, Some(8080));
}

#[test]
fn spurious_arguments_are_refused() {
    let err = match some_args().checked(vec!["--prot".to_string(), "80".to_string()]) {
        Ok(_) => panic!("extra arguments must be refused"),
        Err(err) => err,
    };
    assert_eq!(err.extra, vec!["--prot".to_string(), "80".to_string()]);
    assert_eq!(err.cause(), "Invoked Fantasia with invalid arguments");
}
