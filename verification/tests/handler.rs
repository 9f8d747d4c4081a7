use sql_servers::handler::{
    AuthStep, Channel, ContextParts, ContextSlot, ErrorKind, ErrorReply, Identity, MysqlInstanceShim,
    Password, QueryStep,
};
use sql_servers::salt::scramble;

type Shim = MysqlInstanceShim<&'static str, &'static str, u32>;

fn shim(user_provider: Option<&'static str>) -> Shim {
    MysqlInstanceShim::create("handler", "1.2.3.4".to_string(), user_provider, 7)
}

fn parts(user_info: &str) -> AuthStep<'static, String> {
    AuthStep::Build(ContextParts {
        client_addr: "1.2.3.4".to_string(),
        channel: Channel::MYSQL,
        user_info: user_info.to_string(),
    })
}

fn ask<'a>(name: &str, auth_data: &'a [u8], salt: &'a [u8]) -> AuthStep<'a, String> {
    AuthStep::Ask(
        Identity::UserId(name.to_string(), Some("1.2.3.4".to_string())),
        Password::MysqlNativePwd(auth_data, salt),
    )
}

fn refusal() -> ErrorReply {
    ErrorReply {
        kind: ErrorKind::UnknownError,
        message: b"prepare statement is not supported yet".to_vec(),
    }
}

#[test]
fn salt_bytes_are_ascii_without_nul_and_dollar() {
    for _ in 0..200 {
        let salt = shim(None).salt();
        assert!(salt.iter().all(|b| *b > 0 && *b < 128 && *b != b'$'));
        assert_eq!(scramble(&salt), salt);
    }
}

#[test]
fn salts_are_random() {
    let salts: Vec<[u8; 20]> = (0..8).map(|_| shim(None).salt()).collect();
    assert!(salts.iter().any(|salt| *salt != salts[0]));
    assert!(salts.iter().all(|salt| *salt != [1u8; 20]));
}

#[test]
fn scrambling_of_each_kind_of_byte() {
    let bs = [0, 1, 35, 36, 37, 127, 128, 129, 163, 164, 165, 255, 65, 193, 2, 3, 4, 5, 6, 7, 0];
    assert_eq!(
        scramble(&bs),
        [1, 1, 35, 37, 37, 127, 1, 1, 35, 37, 37, 127, 65, 65, 2, 3, 4, 5, 6, 7]
    );
}

#[test]
fn a_new_connection_holds_what_it_was_given() {
    let shim = MysqlInstanceShim::create_with(&[0; 20], "handler", "a".to_string(), Some("p"), 7);
    assert_eq!(shim.salt(), [1; 20]);
    assert_eq!(*shim.query_handler(), "handler");
    assert_eq!(*shim.session(), 7);
    assert_eq!(shim.user_provider(), Some(&"p"));
    assert_eq!(self::shim(None).user_provider(), None);
}

#[test]
fn without_a_provider_everyone_gets_the_default_user() {
    let shim = shim(None);
    assert_eq!(shim.authenticate("mysql_native_password", b"u", b"s", b"d"), parts(""));
    assert_eq!(shim.authenticate("other", b"", b"", b""), parts(""));
}

#[test]
fn a_provider_is_asked_about_native_passwords() {
    let shim = shim(Some("provider"));
    assert_eq!(
        shim.authenticate("mysql_native_password", b"greptime", b"salt", b"data"),
        ask("greptime", b"data", b"salt")
    );
    assert_eq!(
        shim.authenticate_user("mysql_native_password", "greptime".to_string(), b"salt", b"data"),
        ask("greptime", b"data", b"salt")
    );
}

#[test]
fn a_name_that_is_not_utf8_is_mended() {
    let shim = shim(Some("provider"));
    assert_eq!(
        shim.authenticate("mysql_native_password", b"a\xffb", b"", b""),
        ask("a\u{fffd}b", b"", b"")
    );
    assert_eq!(
        shim.authenticate("mysql_native_password", "\u{e9}".as_bytes(), b"", b""),
        ask("\u{e9}", b"", b"")
    );
    for bytes in [&b"\x80"[..], b"a\xc3", b"\xc0\x80", b"\xed\xa0\x80", b"\xf4\x90\x80\x80", b"\xe2\x82"] {
        match shim.authenticate::<String>("mysql_native_password", bytes, b"", b"") {
            AuthStep::Ask(Identity::UserId(name, _), _) => assert!(name.contains('\u{fffd}')),
            other => panic!("{:?}", other),
        }
    }
}

#[test]
fn with_a_provider_other_plugins_are_refused() {
    let shim = shim(Some("provider"));
    for plugin in ["", "caching_sha2_password", "mysql_native_password ", "MYSQL_NATIVE_PASSWORD"] {
        assert_eq!(shim.authenticate::<String>(plugin, b"u", b"s", b"d"), AuthStep::Answer(false));
    }
}

#[test]
fn the_reply_of_the_provider_decides() {
    let shim = shim(Some("provider"));
    assert_eq!(shim.authenticated::<String, u8>(Ok("user".to_string())), parts("user"));
    assert_eq!(shim.authenticated::<String, u8>(Err(1)), AuthStep::Answer(false));
}

#[test]
fn a_context_is_kept_only_where_it_was_built() {
    let mut slot: ContextSlot<u8> = ContextSlot::new();
    assert_eq!(slot.get(), None);
    assert!(!slot.settle::<&str>(Err("no")));
    assert_eq!(slot.get(), None);
    assert!(slot.settle::<&str>(Ok(1)));
    assert_eq!(slot.get(), Some(&1));
    assert!(!slot.settle::<&str>(Err("no")));
    assert_eq!(slot.get(), Some(&1));
    assert!(slot.settle::<&str>(Ok(2)));
    assert_eq!(slot.get(), Some(&2));
}

#[test]
fn federated_queries_are_not_executed() {
    let shim = shim(None);
    assert_eq!(shim.do_query::<u8, u8>("SELECT @@version_comment", Some(3)), QueryStep::Return(Ok(3)));
}

#[test]
fn other_queries_are_executed_as_they_are_in_the_session() {
    let shim = shim(None);
    for query in [" select 1 ;\n", "", "USE public", "\u{e9}"] {
        assert_eq!(
            shim.do_query::<u8, u8>(query, None),
            QueryStep::Execute { query, session: &7 }
        );
    }
}

#[test]
fn the_result_of_an_execution_is_returned_as_it_is() {
    let shim = shim(None);
    assert_eq!(shim.executed::<u8, &str>(Ok(5)), QueryStep::Return(Ok(5)));
    assert_eq!(shim.executed::<u8, &str>(Err("no")), QueryStep::Return(Err("no")));
}

#[test]
fn a_query_is_executed_at_most_once() {
    let shim = shim(None);
    for (federated, result, expected, times) in
        [(Some(1), Err("no"), Ok(1), 0), (None, Ok(2), Ok(2), 1), (None, Err("no"), Err("no"), 1)]
    {
        let mut executions: u32 = 0;
        let mut step: QueryStep<'_, u32, u8, &str> = shim.do_query("q", federated);
        let returned = loop {
            step = match step {
                QueryStep::Execute { .. } => {
                    executions += 1;
                    shim.executed(result)
                }
                QueryStep::Return(returned) => break returned,
            };
        };
        assert_eq!((returned, executions), (expected, times));
    }
}

#[test]
fn prepared_statements_are_refused() {
    assert_eq!(shim(None).on_prepare(), refusal());
    assert_eq!(shim(Some("provider")).on_execute(), refusal());
}

#[test]
fn a_change_of_database_is_a_query() {
    let shim = shim(None);
    assert_eq!(shim.on_init("public"), "USE public");
    assert_eq!(shim.on_init(" \t\n\u{3000}my db\u{a0}\r\n"), "USE my db");
    assert_eq!(shim.on_init(" \u{85}\u{1680}\u{2028}\u{202f}\u{205f} "), "USE ");
    assert_eq!(shim.on_init("\u{200b}x\u{180e}"), "USE \u{200b}x\u{180e}");
    assert_eq!(shim.on_init(""), "USE ");
}

#[test]
fn white_space_is_the_unicode_property() {
    let shim = shim(None);
    let white = |c: char| {
        matches!(c, '\u{9}'..='\u{d}' | ' ' | '\u{85}' | '\u{a0}' | '\u{1680}')
            || matches!(c, '\u{2000}'..='\u{200a}' | '\u{2028}' | '\u{2029}')
            || matches!(c, '\u{202f}' | '\u{205f}' | '\u{3000}')
    };
    for c in (0u32..0x110000).filter_map(char::from_u32) {
        let trimmed = shim.on_init(&c.to_string()) == "USE ";
        assert_eq!(trimmed, white(c), "{:?}", c);
    }
}

#[test]
fn the_answer_to_a_change_of_database() {
    let shim = shim(None);
    assert_eq!(shim.init_reply(Ok(1)), Ok(()));
    assert_eq!(
        shim.init_reply::<u8>(Err("no \u{e9}".to_string())),
        Err(ErrorReply { kind: ErrorKind::UnknownError, message: b"no \xc3\xa9".to_vec() })
    );
}
