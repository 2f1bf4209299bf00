use grin_bridge::bridge::{reply, reply_unit};
use grin_bridge::config::{
    api_secret_path, chain_type_from_name, create_wallet_config, open_plan, str_eq, tor_config_dir,
    tor_data_dir, ChainType, Config, OpenPlan, ACCEPT_FEE_BASE, API_LISTEN_PORT,
    TOR_SOCKS_PROXY_ADDR,
};
use grin_bridge::error::{Error, ErrorKind};
use grin_bridge::handles::{Handle, HandleTable};
use grin_bridge::middleware::{check_middleware, MiddlewareFn};
use grin_bridge::selection::{strategy_policies, tx_strategies, Selected, Strategy};
use grin_bridge::slate_id::{slate_id_from_text, slate_id_json, SlateId};

const ID_TEXT: &str = "a1a2a3a4-b1b2-c1c2-d1d2-d3d4d5d6d7d8";
const ID: u128 = 0xa1a2a3a4b1b2c1c2d1d2d3d4d5d6d7d8;

#[test]
fn error_messages() {
    assert_eq!(Error::new(ErrorKind::WalletDoesntExist).message(), "Wallet doesn't exist");
    assert_eq!(Error::new(ErrorKind::IO).message(), "IO error");
    assert_eq!(Error::new(ErrorKind::Format).message(), "Serde JSON error");
    assert_eq!(
        Error::new(ErrorKind::GenericError("boom".to_string())).message(),
        "Generic error: boom"
    );
    assert_eq!(
        Error::new(ErrorKind::LibWallet("x".to_string())).message(),
        "LibWallet Error: x"
    );
    assert_eq!(Error::new(ErrorKind::WalletError("w".to_string())).message(), "Wallet Error");
}

#[test]
fn error_cause_and_kind() {
    let e = Error::new(ErrorKind::Keychain("bad key".to_string()));
    assert_eq!(e.cause().map(|s| s.as_str()), Some("bad key"));
    assert!(matches!(e.kind(), ErrorKind::Keychain(_)));
    assert!(Error::new(ErrorKind::IO).cause().is_none());
    let f: Error = ErrorKind::AlreadyCancelled.into();
    assert!(matches!(f.kind(), ErrorKind::AlreadyCancelled));
}

#[test]
fn slate_id_parses_hyphenated() {
    assert_eq!(SlateId::parse(ID_TEXT), Some(SlateId { value: ID }));
    assert_eq!(
        SlateId::parse("A1A2A3A4-B1B2-C1C2-D1D2-D3D4D5D6D7D8"),
        Some(SlateId { value: ID })
    );
    assert_eq!(SlateId::parse(""), None);
    assert_eq!(SlateId::parse("a1a2a3a4-b1b2-c1c2-d1d2-d3d4d5d6d7dz"), None);
}

#[test]
fn slate_id_text_round_trip() {
    let id = SlateId { value: ID };
    assert_eq!(id.to_text(), ID_TEXT);
    assert_eq!(id.reparse(), Some(id));
    let zero = SlateId { value: 0 };
    assert_eq!(zero.to_text(), "00000000-0000-0000-0000-000000000000");
    assert_eq!(SlateId::parse(&zero.to_text()), Some(zero));
}

#[test]
fn slate_id_json_is_quoted_text() {
    assert_eq!(slate_id_json(SlateId { value: ID }), format!("\"{}\"", ID_TEXT));
}

#[test]
fn slate_id_from_bad_text() {
    match slate_id_from_text("nope") {
        Err(Error { inner: ErrorKind::InvalidSlateId(m) }) => assert_eq!(m, "nope"),
        other => panic!("unexpected {:?}", other),
    }
    assert_eq!(slate_id_from_text(ID_TEXT).unwrap(), SlateId { value: ID });
}

#[test]
fn strategies_keep_successful_policies() {
    assert_eq!(strategy_policies(), vec![true, false]);
    let both = tx_strategies(
        Some(Selected { total: 1_100_000, fee: 23_500_000 }),
        Some(Selected { total: 1_100_000, fee: 23_500_000 }),
    );
    assert_eq!(
        both,
        vec![
            Strategy { selection_strategy_is_use_all: true, total: 1_100_000, fee: 23_500_000 },
            Strategy { selection_strategy_is_use_all: false, total: 1_100_000, fee: 23_500_000 },
        ]
    );
    let only_small = tx_strategies(None, Some(Selected { total: 600_000, fee: 10 }));
    assert_eq!(
        only_small,
        vec![Strategy { selection_strategy_is_use_all: false, total: 600_000, fee: 10 }]
    );
    assert!(tx_strategies(None, None).is_empty());
}

#[test]
fn middleware_checks_versions() {
    assert!(check_middleware(MiddlewareFn::BuildCoinbase, Some(5), Some(1)).is_ok());
    let r = check_middleware(MiddlewareFn::ReceiveTx, Some(5), Some(4));
    assert!(matches!(r, Err(Error { inner: ErrorKind::Incompatible(_) })));
    assert!(check_middleware(MiddlewareFn::ReceiveTx, Some(5), Some(5)).is_ok());
    assert!(check_middleware(MiddlewareFn::ReceiveTx, None, Some(1)).is_ok());
    assert!(check_middleware(MiddlewareFn::FinalizeTx, Some(4), Some(1)).is_ok());
    assert!(check_middleware(MiddlewareFn::VerifySlateMessages, Some(6), None).is_ok());
}

#[test]
fn chain_names() {
    assert_eq!(chain_type_from_name("mainnet"), ChainType::Mainnet);
    assert_eq!(chain_type_from_name("floonet"), ChainType::Testnet);
    assert_eq!(chain_type_from_name("usertesting"), ChainType::UserTesting);
    assert_eq!(chain_type_from_name("automatedtesting"), ChainType::AutomatedTesting);
    assert_eq!(chain_type_from_name("Mainnet"), ChainType::Testnet);
    assert_eq!(chain_type_from_name(""), ChainType::Testnet);
    assert!(str_eq("abc", "abc"));
    assert!(!str_eq("abc", "abd"));
    assert!(!str_eq("abc", "ab"));
}

#[test]
fn wallet_config_from_config() {
    let config = Config {
        wallet_dir: "/data/w".to_string(),
        check_node_api_http_addr: "http://node:3413".to_string(),
        chain: "mainnet".to_string(),
        account: Some("default".to_string()),
    };
    assert_eq!(api_secret_path("/data/w"), "/data/w/.api_secret");
    let s = create_wallet_config(config.clone(), true);
    assert_eq!(s.accept_fee_base, ACCEPT_FEE_BASE);
    assert_eq!(s.accept_fee_base, 500000);
    assert_eq!(s.api_listen_port, API_LISTEN_PORT);
    assert_eq!(s.api_listen_port, 3415);
    assert_eq!(s.chain_type, ChainType::Mainnet);
    assert_eq!(s.node_api_secret_path.as_deref(), Some("/data/w/.api_secret"));
    assert_eq!(s.check_node_api_http_addr, "http://node:3413");
    assert_eq!(s.data_file_dir, "/data/w");
    assert!(s.dark_background_color_scheme);
    let s = create_wallet_config(config, false);
    assert!(s.node_api_secret_path.is_none());
}

#[test]
fn opening_needs_wallet_and_account() {
    assert!(matches!(
        open_plan(Some(true), Some("default".to_string())),
        OpenPlan::Open { account } if account == "default"
    ));
    assert!(matches!(
        open_plan(Some(false), Some("default".to_string())),
        OpenPlan::Refuse(Error { inner: ErrorKind::WalletDoesntExist })
    ));
    assert!(matches!(
        open_plan(None, Some("a".to_string())),
        OpenPlan::Refuse(Error { inner: ErrorKind::WalletDoesntExist })
    ));
    assert!(matches!(
        open_plan(Some(true), None),
        OpenPlan::Refuse(Error { inner: ErrorKind::WalletCannotBeOpened(_) })
    ));
}

#[test]
fn tor_paths() {
    assert_eq!(tor_config_dir("/w/wallet_data"), "/w/wallet_data/tor");
    assert_eq!(tor_data_dir("/w/tor", "/"), "/w/tor/data");
    assert_eq!(TOR_SOCKS_PROXY_ADDR, "127.0.0.1:39059");
}

#[test]
fn reply_envelopes() {
    let ok = reply(Ok("{\"a\":1}".to_string()));
    assert!(!ok.is_error);
    assert_eq!(ok.payload, "{\"a\":1}");
    let err = reply(Err(Error::new(ErrorKind::WalletDoesntExist)));
    assert!(err.is_error);
    assert_eq!(err.payload, "\"Wallet doesn't exist\"");
    let quoted = reply(Err(Error::new(ErrorKind::GenericError("say \"hi\"".to_string()))));
    assert_eq!(quoted.payload, "\"Generic error: say \\\"hi\\\"\"");
    let control = reply(Err(Error::new(ErrorKind::GenericError("a\nb\u{1}".to_string()))));
    assert_eq!(control.payload, "\"Generic error: a\\nb\\u0001\"");
    let unit = reply_unit(Ok(()));
    assert!(!unit.is_error);
    assert_eq!(unit.payload, "");
    assert!(reply_unit(Err(Error::new(ErrorKind::IO))).is_error);
}

#[test]
fn handles_detect_stale_use() {
    let mut t: HandleTable<String> = HandleTable::new();
    let a = t.insert("a".to_string());
    let b = t.insert("b".to_string());
    assert_ne!(a.token(), Some(0));
    assert_eq!(t.get(Handle::from_token(0)), None);
    assert_eq!(t.get(a).map(|s| s.as_str()), Some("a"));
    assert_eq!(t.remove(a), Some("a".to_string()));
    assert_eq!(t.get(a), None);
    assert_eq!(t.remove(a), None);
    let c = t.insert("c".to_string());
    assert_eq!(c.index, a.index);
    assert_ne!(c.generation, a.generation);
    assert_eq!(t.get(a), None);
    assert_eq!(t.get(c).map(|s| s.as_str()), Some("c"));
    assert_eq!(t.get(b).map(|s| s.as_str()), Some("b"));
}

#[test]
fn handle_tokens_round_trip() {
    let h = Handle { index: 3, generation: 2 };
    let t = h.token().unwrap();
    assert_eq!(t, 2 * 0x1_0000_0000 + 3);
    assert_eq!(Handle::from_token(t), h);
    assert_eq!(Handle { index: 0, generation: 0x1_0000_0000 }.token(), None);
}
