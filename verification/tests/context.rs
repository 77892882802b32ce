use gpgme::callbacks::Registration;
use gpgme::context::expiry;
use gpgme::context::some_unless_empty;
use gpgme::Context;
use gpgme::context::Operation;
use gpgme::engine::key_handles;
use gpgme::engine::Data;
use gpgme::engine::EngineCall;
use gpgme::engine::EngineInfo;
use gpgme::engine::Extract;
use gpgme::engine::Key;
use gpgme::engine::ResultKind;
use gpgme::engine::SignatureNotation;
use gpgme::engine::Timestamp;
use gpgme::engine::Version;
use gpgme::Error;
use gpgme::error::ErrorKind;
use gpgme::flags::AuditLogFlags;
use gpgme::flags::CreateKeyFlags;
use gpgme::flags::DecryptFlags;
use gpgme::flags::DeleteKeyFlags;
use gpgme::flags::EncryptFlags;
use gpgme::flags::ExportMode;
use gpgme::flags::KeyListMode;
use gpgme::flags::KeySigningFlags;
use gpgme::PinentryMode;
use gpgme::flags::Protocol;
use gpgme::flags::SignMode;
use gpgme::flags::SignatureNotationFlags;
use gpgme::keyring::join_ids;
use gpgme::keyring::Refresh;
use gpgme::tofu::TofuPolicy;

fn session_on(major: u32, minor: u32) -> Context {
    Context::from_protocol(Protocol::OpenPgp, Version { major, minor }, 0, 0).unwrap()
}

fn session() -> Context {
    session_on(1, 13)
}

fn key(raw: usize) -> Key {
    Key { raw, fingerprint: Some(b"ABCDEF0123".to_vec()), secret: false }
}

fn engine(version: Option<Version>) -> EngineInfo {
    EngineInfo { path: Some(b"/usr/bin/gpg".to_vec()), home_dir: None, version }
}

#[test]
fn session_is_made_from_the_answers_of_the_engine() {
    let version = Version { major: 1, minor: 13 };
    let made = Context::from_protocol(Protocol::Cms, version, 0, 0).unwrap();
    assert_eq!(made.protocol(), Protocol::Cms);
    assert_eq!(made.library, version);
    assert!(!made.callbacks.passphrase.is_installed());
    assert_eq!(
        Context::from_protocol(Protocol::Cms, version, 0x0700_0056, 0),
        Err(Error::new(0x0700_0056))
    );
    assert_eq!(
        Context::from_protocol(Protocol::Cms, version, 0x0700_0056, 9),
        Err(Error::new(0x0700_0056))
    );
    assert_eq!(Context::from_protocol(Protocol::Cms, version, 0, 9), Err(Error::new(9)));
}

#[test]
fn switches_are_zero_or_one() {
    let ctx = session();
    assert_eq!(ctx.set_armor(true), EngineCall::SetArmor { yes: 1 });
    assert_eq!(ctx.set_armor(false), EngineCall::SetArmor { yes: 0 });
    assert_eq!(ctx.set_text_mode(true), EngineCall::SetTextMode { yes: 1 });
    assert_eq!(ctx.set_offline(false), EngineCall::SetOffline { yes: 0 });
    assert!(ctx.armor(1));
    assert!(ctx.armor(-3));
    assert!(!ctx.armor(0));
    assert!(ctx.text_mode(2));
    assert!(!ctx.offline(0));
}

#[test]
fn version_gated_operation_is_not_supported_on_an_old_engine() {
    let old = session_on(1, 6);
    let refused = old.create_key_with_flags(
        b"Example User <example@example.com>".to_vec(),
        b"default".to_vec(),
        None,
        CreateKeyFlags(1),
    );
    assert_eq!(refused, Err(Error::not_supported()));
    let cause = refused.unwrap_err();
    assert_eq!(cause.kind(), ErrorKind::NotSupported);
    assert_ne!(cause.code(), Error::general().code());
    assert_eq!(old.create_key(b"u".to_vec(), b"a".to_vec(), None), Err(Error::not_supported()));
    assert_eq!(
        old.create_subkey(&key(1), b"a".to_vec(), None),
        Err(Error::not_supported())
    );
    assert_eq!(
        old.create_subkey_with_flags(&key(1), b"a".to_vec(), None, CreateKeyFlags(0)),
        Err(Error::not_supported())
    );
    assert_eq!(old.set_flag(b"n".to_vec(), b"v".to_vec()), Err(Error::not_supported()));
    assert_eq!(old.add_uid(&key(1), b"u".to_vec()), Err(Error::not_supported()));
    assert_eq!(old.revoke_uid(&key(1), b"u".to_vec()), Err(Error::not_supported()));
    assert_eq!(old.sign_key(&key(1), &Vec::new(), None), Err(Error::not_supported()));
    assert_eq!(
        old.sign_key_with_flags(&key(1), &Vec::new(), None, KeySigningFlags(0)),
        Err(Error::not_supported())
    );
    assert_eq!(
        old.change_key_tofu_policy(&key(1), TofuPolicy::Good),
        Err(Error::not_supported())
    );
    assert!(session_on(0, 99).set_flag(Vec::new(), Vec::new()).is_err());
    assert!(session_on(1, 7).set_flag(Vec::new(), Vec::new()).is_ok());
    assert!(session_on(2, 0).set_flag(Vec::new(), Vec::new()).is_ok());
    assert!(old.supports(1, 6));
    assert!(!old.supports(1, 7));
}

#[test]
fn key_creation_names_the_call_and_its_result() {
    let ctx = session();
    let op = ctx
        .create_key_with_flags(
            b"Example User <example@example.com>".to_vec(),
            b"default".to_vec(),
            Some(Timestamp(1_700_000_000)),
            CreateKeyFlags(0x1001),
        )
        .unwrap();
    assert_eq!(
        op,
        Operation {
            call: EngineCall::CreateKey {
                userid: b"Example User <example@example.com>".to_vec(),
                algo: b"default".to_vec(),
                reserved: 0,
                expires: 1_700_000_000,
                flags: 0x1001,
            },
            results: Extract::One(ResultKind::KeyGeneration),
        }
    );
    assert_eq!(op.complete(0), Ok(Extract::One(ResultKind::KeyGeneration)));
    let op = ctx.create_key(b"u".to_vec(), b"rsa".to_vec(), None).unwrap();
    assert_eq!(
        op.call,
        EngineCall::CreateKey {
            userid: b"u".to_vec(),
            algo: b"rsa".to_vec(),
            reserved: 0,
            expires: 0,
            flags: 0,
        }
    );
    assert_eq!(op.complete(0x0700_0063), Err(Error::new(0x0700_0063)));
    let sub = ctx
        .create_subkey_with_flags(&key(0x77), b"ed25519".to_vec(), Some(Timestamp(5)), CreateKeyFlags(2))
        .unwrap();
    assert_eq!(
        sub.call,
        EngineCall::CreateSubkey {
            key: 0x77,
            algo: b"ed25519".to_vec(),
            reserved: 0,
            expires: 5,
            flags: 2,
        }
    );
    assert_eq!(sub.results, Extract::One(ResultKind::KeyGeneration));
    let sub = ctx.create_subkey(&key(0x78), b"x".to_vec(), None).unwrap();
    assert_eq!(
        sub.call,
        EngineCall::CreateSubkey { key: 0x78, algo: b"x".to_vec(), reserved: 0, expires: 0, flags: 0 }
    );
}

#[test]
fn expiry_is_seconds_or_zero() {
    assert_eq!(expiry(None), 0);
    assert_eq!(expiry(Some(Timestamp(0))), 0);
    assert_eq!(expiry(Some(Timestamp(1))), 1);
    assert_eq!(expiry(Some(Timestamp(4_102_444_800))), 4_102_444_800);
    assert_eq!(expiry(Some(Timestamp(u64::MAX))), u64::MAX as libc::c_ulong);
}

#[test]
fn user_ids_are_joined_by_line_feeds() {
    assert_eq!(join_ids(&Vec::new()), Vec::<u8>::new());
    assert_eq!(join_ids(&vec![b"one".to_vec()]), b"one".to_vec());
    assert_eq!(join_ids(&vec![b"one".to_vec(), b"two".to_vec()]), b"one\ntwo".to_vec());
    assert_eq!(
        join_ids(&vec![b"a".to_vec(), Vec::new(), b"c".to_vec(), b"dd".to_vec()]),
        b"a\n\nc\ndd".to_vec()
    );
}

#[test]
fn key_signing_marks_several_user_ids() {
    let ctx = session();
    let none = ctx.sign_key_with_flags(&key(9), &Vec::new(), None, KeySigningFlags(128)).unwrap();
    assert_eq!(
        none,
        Operation {
            call: EngineCall::KeySign { key: 9, userids: None, expires: 0, flags: 128 },
            results: Extract::Nothing,
        }
    );
    let one = ctx
        .sign_key_with_flags(
            &key(9),
            &vec![b"Alpha <a@example.org>".to_vec()],
            Some(Timestamp(86400)),
            KeySigningFlags(128),
        )
        .unwrap();
    assert_eq!(
        one.call,
        EngineCall::KeySign {
            key: 9,
            userids: Some(b"Alpha <a@example.org>".to_vec()),
            expires: 86400,
            flags: 128,
        }
    );
    let several = ctx
        .sign_key_with_flags(
            &key(9),
            &vec![b"Alpha".to_vec(), b"Bravo".to_vec(), b"Charlie".to_vec()],
            None,
            KeySigningFlags(128),
        )
        .unwrap();
    assert_eq!(
        several.call,
        EngineCall::KeySign {
            key: 9,
            userids: Some(b"Alpha\nBravo\nCharlie".to_vec()),
            expires: 0,
            flags: 128 | 256,
        }
    );
    let two = ctx.sign_key(&key(9), &vec![b"A".to_vec(), b"B".to_vec()], None).unwrap();
    assert_eq!(
        two.call,
        EngineCall::KeySign { key: 9, userids: Some(b"A\nB".to_vec()), expires: 0, flags: 256 }
    );
    assert_eq!(two.complete(0), Ok(Extract::Nothing));
}

#[test]
fn test_pinentry_mode() {
    let ctx = session();
    let modern = engine(Some(Version { major: 2, minor: 1 }));
    let op = ctx.set_pinentry_mode(PinentryMode::Loopback, &modern).unwrap();
    assert_eq!(op.call, EngineCall::SetPinentryMode { mode: 4 });
    assert_eq!(op.complete(0), Ok(Extract::Nothing));
    assert_eq!(ctx.pinentry_mode(4), PinentryMode::Loopback);
    let dated = engine(Some(Version { major: 2, minor: 0 }));
    let refused = ctx.set_pinentry_mode(PinentryMode::Loopback, &dated);
    assert_eq!(refused.unwrap_err().code(), Error::not_supported().code());
    assert!(ctx.set_pinentry_mode(PinentryMode::Ask, &engine(None)).is_err());
    assert_eq!(
        ctx.set_pinentry_mode(PinentryMode::Default, &dated).unwrap().call,
        EngineCall::SetPinentryMode { mode: 0 }
    );
    let cms = Context::from_protocol(Protocol::Cms, Version { major: 1, minor: 13 }, 0, 0).unwrap();
    assert_eq!(
        cms.set_pinentry_mode(PinentryMode::Cancel, &dated).unwrap().call,
        EngineCall::SetPinentryMode { mode: 2 }
    );
    assert_eq!(ctx.pinentry_mode(0), PinentryMode::Default);
    assert_eq!(ctx.pinentry_mode(9), PinentryMode::Other(9));
}

#[test]
fn engine_settings_keep_what_is_not_set() {
    let ctx = Context::from_protocol(Protocol::Cms, Version { major: 1, minor: 13 }, 0, 0).unwrap();
    let held = EngineInfo {
        path: Some(b"/opt/gpgsm".to_vec()),
        home_dir: Some(b"/home/u/.gnupg".to_vec()),
        version: None,
    };
    assert_eq!(
        ctx.set_engine_path(held.clone(), b"/usr/bin/gpgsm".to_vec()).call,
        EngineCall::SetEngineInfo {
            proto: 1,
            path: Some(b"/usr/bin/gpgsm".to_vec()),
            home_dir: Some(b"/home/u/.gnupg".to_vec()),
        }
    );
    assert_eq!(
        ctx.set_engine_home_dir(held.clone(), b"/tmp/h".to_vec()).call,
        EngineCall::SetEngineInfo {
            proto: 1,
            path: Some(b"/opt/gpgsm".to_vec()),
            home_dir: Some(b"/tmp/h".to_vec()),
        }
    );
    assert_eq!(
        ctx.set_engine_info(None, Some(b"/h".to_vec())).call,
        EngineCall::SetEngineInfo { proto: 1, path: None, home_dir: Some(b"/h".to_vec()) }
    );
    assert!(held.clone().check_version(0, 0) == false);
    assert!(engine(Some(Version { major: 2, minor: 2 })).check_version(2, 1));
    assert!(engine(Some(Version { major: 3, minor: 0 })).check_version(2, 1));
    assert!(!engine(Some(Version { major: 1, minor: 9 })).check_version(2, 1));
}

#[test]
fn key_list_mode_keeps_known_bits() {
    let ctx = session();
    assert_eq!(ctx.key_list_mode(1), KeyListMode(1));
    assert_eq!(ctx.key_list_mode(0xFFFF_FFFF), KeyListMode(447));
    assert_eq!(ctx.key_list_mode(64 | 4), KeyListMode(4));
    assert_eq!(
        ctx.add_key_list_mode(KeyListMode(4), 1).call,
        EngineCall::SetKeyListMode { mode: 5 }
    );
    assert_eq!(
        ctx.add_key_list_mode(KeyListMode(1), 1).call,
        EngineCall::SetKeyListMode { mode: 1 }
    );
    assert_eq!(
        ctx.set_key_list_mode(KeyListMode(2 | 16)).call,
        EngineCall::SetKeyListMode { mode: 18 }
    );
}

#[test]
fn key_search_takes_patterns_or_none() {
    let ctx = session();
    assert_eq!(
        ctx.find_keys(vec![b"Alpha".to_vec()]).call,
        EngineCall::KeyListStart {
            patterns: Some(vec![b"Alpha".to_vec()]),
            secret_only: 0,
            reserved: 0,
        }
    );
    assert_eq!(
        ctx.find_secret_keys(vec![b"Alpha".to_vec(), b"Bob".to_vec()]).call,
        EngineCall::KeyListStart {
            patterns: Some(vec![b"Alpha".to_vec(), b"Bob".to_vec()]),
            secret_only: 1,
            reserved: 0,
        }
    );
    assert_eq!(
        ctx.find_keys(Vec::new()).call,
        EngineCall::KeyListStart { patterns: None, secret_only: 0, reserved: 0 }
    );
    assert_eq!(ctx.keys(), ctx.find_keys(Vec::new()));
    assert_eq!(ctx.secret_keys(), ctx.find_secret_keys(Vec::new()));
    assert_eq!(
        ctx.secret_keys().call,
        EngineCall::KeyListStart { patterns: None, secret_only: 1, reserved: 0 }
    );
    assert_eq!(
        ctx.read_keys(&Data(44)),
        EngineCall::KeyListFromData { data: 44, reserved: 0 }
    );
    assert_eq!(
        ctx.find_trust_items(b"alice".to_vec(), 2).call,
        EngineCall::TrustListStart { pattern: b"alice".to_vec(), max_level: 2 }
    );
    assert_eq!(some_unless_empty(Vec::<u8>::new()), None);
    assert_eq!(some_unless_empty(vec![1u8]), Some(vec![1u8]));
}

#[test]
fn key_lookup_by_fingerprint() {
    let ctx = session();
    assert_eq!(
        ctx.get_key(b"F00D".to_vec()).call,
        EngineCall::GetKey { fingerprint: b"F00D".to_vec(), secret: 0 }
    );
    assert_eq!(
        ctx.get_secret_key(b"F00D".to_vec()).call,
        EngineCall::GetKey { fingerprint: b"F00D".to_vec(), secret: 1 }
    );
    assert_eq!(ctx.find_key(b"F00D".to_vec()), ctx.get_key(b"F00D".to_vec()));
    assert_eq!(ctx.find_secret_key(b"F00D".to_vec()), ctx.get_secret_key(b"F00D".to_vec()));
}

#[test]
fn refresh_looks_for_the_secret_key_first() {
    let ctx = session();
    let public = key(1);
    let secret = Key { secret: true, ..key(2) };
    let nameless = Key { fingerprint: None, ..key(3) };
    assert_eq!(ctx.refresh_key(&nameless, None), Err(Error::ambiguous_name()));
    assert_eq!(ctx.refresh_key(&nameless, Some(0)), Err(Error::ambiguous_name()));
    assert_eq!(
        ctx.refresh_key(&public, None),
        Ok(Refresh::Public(ctx.get_key(b"ABCDEF0123".to_vec())))
    );
    assert_eq!(
        ctx.refresh_key(&public, Some(0)),
        Ok(Refresh::Public(ctx.get_key(b"ABCDEF0123".to_vec())))
    );
    assert_eq!(
        ctx.refresh_key(&secret, None),
        Ok(Refresh::Secret(ctx.get_secret_key(b"ABCDEF0123".to_vec())))
    );
    assert_eq!(ctx.refresh_key(&secret, Some(0)), Ok(Refresh::Done));
    assert_eq!(
        ctx.refresh_key(&secret, Some(0x0700_0011)),
        Ok(Refresh::Public(ctx.get_key(b"ABCDEF0123".to_vec())))
    );
}

#[test]
fn key_changes_name_their_calls() {
    let ctx = session();
    assert_eq!(
        ctx.add_uid(&key(5), b"New <n@example.org>".to_vec()).unwrap().call,
        EngineCall::AddUid { key: 5, userid: b"New <n@example.org>".to_vec(), reserved: 0 }
    );
    assert_eq!(
        ctx.revoke_uid(&key(5), b"Old".to_vec()).unwrap().call,
        EngineCall::RevokeUid { key: 5, userid: b"Old".to_vec(), reserved: 0 }
    );
    assert_eq!(
        ctx.set_uid_flag(&key(5), b"u".to_vec(), b"primary".to_vec(), None).call,
        EngineCall::SetUidFlag {
            key: 5,
            userid: b"u".to_vec(),
            name: b"primary".to_vec(),
            value: None,
        }
    );
    assert_eq!(
        ctx.set_flag(b"full-status".to_vec(), b"1".to_vec()).unwrap().call,
        EngineCall::SetCtxFlag { name: b"full-status".to_vec(), value: b"1".to_vec() }
    );
    assert_eq!(
        ctx.change_key_tofu_policy(&key(5), TofuPolicy::Bad).unwrap().call,
        EngineCall::TofuPolicy { key: 5, policy: 4 }
    );
    assert_eq!(
        ctx.change_key_passphrase(&key(5)).call,
        EngineCall::Passwd { key: 5, flags: 0 }
    );
    assert_eq!(ctx.delete_key(&key(5)).call, EngineCall::Delete { key: 5, allow_secret: 0 });
    assert_eq!(
        ctx.delete_secret_key(&key(5)).call,
        EngineCall::Delete { key: 5, allow_secret: 1 }
    );
    assert_eq!(
        ctx.delete_key_with_flags(&key(5), DeleteKeyFlags(3)).call,
        EngineCall::DeleteExt { key: 5, flags: 3 }
    );
    let made = ctx.generate_key(b"<GnupgKeyParms/>".to_vec(), Some(&Data(1)), None);
    assert_eq!(
        made.call,
        EngineCall::GenKey { params: b"<GnupgKeyParms/>".to_vec(), public: Some(1), secret: None }
    );
    assert_eq!(made.results, Extract::One(ResultKind::KeyGeneration));
}

#[test]
fn dialogues_name_their_calls() {
    let ctx = session();
    let handler = Registration::new(0xF00, 0xBEEF);
    assert_eq!(
        ctx.edit_key(&key(5), handler, &Data(3)).call,
        EngineCall::Edit { key: 5, card: false, entry: Some(0xF00), hook: 0xBEEF, response: 3 }
    );
    assert_eq!(
        ctx.edit_card_key(&key(5), handler, &Data(3)).call,
        EngineCall::Edit { key: 5, card: true, entry: Some(0xF00), hook: 0xBEEF, response: 3 }
    );
    assert_eq!(
        ctx.interact(&key(5), handler, &Data(3)).call,
        EngineCall::Interact { key: 5, flags: 0, entry: Some(0xF00), hook: 0xBEEF, response: 3 }
    );
    assert_eq!(
        ctx.interact_with_card(&key(5), handler, &Data(3)).call,
        EngineCall::Interact { key: 5, flags: 1, entry: Some(0xF00), hook: 0xBEEF, response: 3 }
    );
    assert_eq!(ctx.interact(&key(5), handler, &Data(3)).results, Extract::Nothing);
}

#[test]
fn version_is_read_from_its_text() {
    assert_eq!(Version::parse(b"1.13.1"), Some(Version { major: 1, minor: 13 }));
    assert_eq!(Version::parse(b"2.2"), Some(Version { major: 2, minor: 2 }));
    assert_eq!(Version::parse(b"2.1.0-beta3"), Some(Version { major: 2, minor: 1 }));
    assert_eq!(Version::parse(b"0.0"), Some(Version { major: 0, minor: 0 }));
    assert_eq!(Version::parse(b"007.010"), Some(Version { major: 7, minor: 10 }));
    assert_eq!(
        Version::parse(b"4294967295.4294967295"),
        Some(Version { major: 4294967295, minor: 4294967295 })
    );
    assert_eq!(Version::parse(b"4294967296.0"), None);
    assert_eq!(Version::parse(b"1.4294967296"), None);
    assert_eq!(Version::parse(b"1.99999999999999999999999"), None);
    assert_eq!(Version::parse(b""), None);
    assert_eq!(Version::parse(b"1"), None);
    assert_eq!(Version::parse(b"1."), None);
    assert_eq!(Version::parse(b".1"), None);
    assert_eq!(Version::parse(b"1.x"), None);
    assert_eq!(Version::parse(b"1,2"), None);
    assert_eq!(Version::parse(b"v1.2"), None);
    assert_eq!(Version::parse(b" 1.2"), None);
    assert_eq!(Version::of_text(Some(b"1.13.1")), Version { major: 1, minor: 13 });
    assert_eq!(Version::of_text(Some(b"unknown")), Version { major: 0, minor: 0 });
    assert_eq!(Version::of_text(None), Version { major: 0, minor: 0 });
    assert!(session_on(0, 0).create_key(Vec::new(), Vec::new(), None).is_err());
    assert!(Version { major: 1, minor: 7 }.at_least(1, 7));
    assert!(Version { major: 1, minor: 8 }.at_least(1, 7));
    assert!(Version { major: 2, minor: 0 }.at_least(1, 7));
    assert!(!Version { major: 1, minor: 6 }.at_least(1, 7));
    assert!(!Version { major: 0, minor: 9 }.at_least(1, 7));
}

#[test]
fn import_and_export_take_keys_or_none() {
    let ctx = session();
    assert_eq!(key_handles(&vec![key(4), key(2)]), vec![4, 2]);
    assert_eq!(
        ctx.import(&Data(8)),
        Operation { call: EngineCall::Import { data: 8 }, results: Extract::One(ResultKind::Import) }
    );
    assert_eq!(
        ctx.import_keys(&vec![key(4), key(2)]).call,
        EngineCall::ImportKeys { keys: Some(vec![4, 2]) }
    );
    assert_eq!(ctx.import_keys(&Vec::new()).call, EngineCall::ImportKeys { keys: None });
    assert_eq!(ctx.import_keys(&Vec::new()).results, Extract::One(ResultKind::Import));
    assert_eq!(
        ctx.export_all_extern(ExportMode(4)).call,
        EngineCall::Export { patterns: None, mode: 6, data: None }
    );
    assert_eq!(
        ctx.export_extern(vec![b"a".to_vec()], ExportMode(0)).call,
        EngineCall::Export { patterns: Some(vec![b"a".to_vec()]), mode: 2, data: None }
    );
    assert_eq!(
        ctx.export_all(ExportMode(16), &Data(6)).call,
        EngineCall::Export { patterns: None, mode: 16, data: Some(6) }
    );
    assert_eq!(
        ctx.export(vec![b"a".to_vec(), b"b".to_vec()], ExportMode(4), &Data(6)).call,
        EngineCall::Export {
            patterns: Some(vec![b"a".to_vec(), b"b".to_vec()]),
            mode: 4,
            data: Some(6),
        }
    );
    assert_eq!(
        ctx.export_keys_extern(&vec![key(1)], ExportMode(4)).call,
        EngineCall::ExportKeys { keys: Some(vec![1]), mode: 6, data: None }
    );
    assert_eq!(
        ctx.export_keys(&Vec::new(), ExportMode(4), &Data(6)).call,
        EngineCall::ExportKeys { keys: None, mode: 4, data: Some(6) }
    );
    assert_eq!(ctx.export_keys(&Vec::new(), ExportMode(4), &Data(6)).results, Extract::Nothing);
}

#[test]
fn signature_settings_name_their_calls() {
    let ctx = session();
    assert_eq!(ctx.clear_sender().call, EngineCall::SetSender { address: None });
    assert_eq!(
        ctx.set_sender(b"a@example.org".to_vec()).call,
        EngineCall::SetSender { address: Some(b"a@example.org".to_vec()) }
    );
    assert_eq!(ctx.sender(Some(b"a@example.org")).ok(), Some("a@example.org"));
    assert_eq!(ctx.sender(None).err(), Some(None));
    assert!(matches!(ctx.sender(Some(&[0xC0, 0x20])), Err(Some(_))));
    assert_eq!(ctx.get_flag(Some(b"1")).ok(), Some("1"));
    assert_eq!(ctx.get_flag(None).err(), Some(None));
    assert_eq!(ctx.clear_signers(), EngineCall::SignersClear);
    assert_eq!(ctx.add_signer(&key(3)).call, EngineCall::SignersAdd { key: 3 });
    assert_eq!(ctx.signers().current, Some(0));
    assert_eq!(ctx.clear_signature_notations(), EngineCall::SigNotationClear);
    assert_eq!(
        ctx.add_signature_notation(b"n@example.org".to_vec(), b"v".to_vec(), SignatureNotationFlags(1))
            .call,
        EngineCall::SigNotationAdd {
            name: Some(b"n@example.org".to_vec()),
            value: b"v".to_vec(),
            flags: 1,
        }
    );
    assert_eq!(
        ctx.add_signature_policy_url(b"https://example.org/p".to_vec(), true).call,
        EngineCall::SigNotationAdd {
            name: None,
            value: b"https://example.org/p".to_vec(),
            flags: 2,
        }
    );
    assert_eq!(
        ctx.add_signature_policy_url(b"https://example.org/p".to_vec(), false).call,
        EngineCall::SigNotationAdd {
            name: None,
            value: b"https://example.org/p".to_vec(),
            flags: 0,
        }
    );
}

#[test]
fn policy_url_is_the_first_nameless_notation() {
    let ctx = session();
    let named = SignatureNotation { name: Some(b"a".to_vec()), value: Some(b"1".to_vec()), flags: 1 };
    let first = SignatureNotation { name: None, value: Some(b"https://one".to_vec()), flags: 0 };
    let second = SignatureNotation { name: None, value: Some(b"https://two".to_vec()), flags: 2 };
    let hollow = SignatureNotation { name: None, value: None, flags: 0 };
    assert_eq!(ctx.signature_policy_url_raw(&Vec::new()), None);
    assert_eq!(ctx.signature_policy_url_raw(&vec![named.clone()]), None);
    assert_eq!(
        ctx.signature_policy_url_raw(&vec![named.clone(), first.clone(), second.clone()]),
        Some(&b"https://one"[..])
    );
    assert_eq!(
        ctx.signature_policy_url_raw(&vec![second.clone(), first.clone()]),
        Some(&b"https://two"[..])
    );
    assert_eq!(ctx.signature_policy_url_raw(&vec![named.clone(), hollow.clone(), first.clone()]), None);
    assert_eq!(
        ctx.signature_policy_url(&vec![named.clone(), first.clone()]).ok(),
        Some("https://one")
    );
    assert_eq!(ctx.signature_policy_url(&vec![named.clone()]).err(), Some(None));
    let broken = SignatureNotation { name: None, value: Some(vec![0xFF]), flags: 0 };
    assert!(matches!(ctx.signature_policy_url(&vec![broken]), Err(Some(_))));
}

#[test]
fn detached_signature_and_its_verification_name_their_calls() {
    let ctx = session();
    let (plain, signature) = (Data(0x10), Data(0x20));
    let sign = ctx.sign_detached(&plain, &signature);
    assert_eq!(
        sign,
        Operation {
            call: EngineCall::Sign { plain: 0x10, signature: 0x20, mode: 1 },
            results: Extract::One(ResultKind::Signing),
        }
    );
    assert_eq!(sign, ctx.sign(SignMode::Detached, &plain, &signature));
    assert_eq!(sign.complete(0), Ok(Extract::One(ResultKind::Signing)));
    let verify = ctx.verify_detached(&signature, &plain);
    assert_eq!(
        verify,
        Operation {
            call: EngineCall::Verify { signature: 0x20, signed_text: Some(0x10), plain: None },
            results: Extract::One(ResultKind::Verification),
        }
    );
    assert_eq!(verify.complete(0), Ok(Extract::One(ResultKind::Verification)));
    assert_eq!(
        ctx.verify_opaque(&signature, &plain).call,
        EngineCall::Verify { signature: 0x20, signed_text: None, plain: Some(0x10) }
    );
    assert_eq!(
        ctx.sign_normal(&plain, &signature).call,
        EngineCall::Sign { plain: 0x10, signature: 0x20, mode: 0 }
    );
    assert_eq!(
        ctx.sign_clear(&plain, &signature).call,
        EngineCall::Sign { plain: 0x10, signature: 0x20, mode: 2 }
    );
    assert_eq!(
        ctx.sign(SignMode::Other(7), &plain, &signature).call,
        EngineCall::Sign { plain: 0x10, signature: 0x20, mode: 7 }
    );
}

#[test]
fn failed_call_reads_no_result() {
    let ctx = session();
    let op = ctx.sign_and_encrypt(&vec![key(1)], &Data(1), &Data(2));
    assert_eq!(op.complete(0x0700_0009), Err(Error::new(0x0700_0009)));
    let op = ctx.decrypt_and_verify(&Data(1), &Data(2));
    assert_eq!(op.complete(0x0700_0098), Err(Error::new(0x0700_0098)));
}

#[test]
fn two_results_are_read_in_a_fixed_order() {
    let ctx = session();
    let op = ctx.sign_and_encrypt_with_flags(&vec![key(1), key(2)], &Data(1), &Data(2), EncryptFlags(1));
    assert_eq!(
        op,
        Operation {
            call: EngineCall::EncryptSign {
                recipients: Some(vec![1, 2]),
                flags: 1,
                plain: 1,
                cipher: 2,
            },
            results: Extract::Two(ResultKind::Encryption, ResultKind::Signing),
        }
    );
    assert_eq!(op.complete(0), Ok(Extract::Two(ResultKind::Encryption, ResultKind::Signing)));
    let op = ctx.decrypt_and_verify(&Data(1), &Data(2));
    assert_eq!(op.call, EngineCall::DecryptVerify { cipher: 1, plain: 2 });
    assert_eq!(op.complete(0), Ok(Extract::Two(ResultKind::Decryption, ResultKind::Verification)));
    let op = ctx.decrypt_and_verify_with_flags(&Data(1), &Data(2), DecryptFlags(1));
    assert_eq!(op.call, EngineCall::DecryptExt { flags: 1, cipher: 1, plain: 2 });
    assert_eq!(op.results, Extract::Two(ResultKind::Decryption, ResultKind::Verification));
}

#[test]
fn decrypt_and_verify_with_flags_always_asks_for_verification() {
    let ctx = session();
    let op = ctx.decrypt_and_verify_with_flags(&Data(1), &Data(2), DecryptFlags(0));
    assert_eq!(op.call, EngineCall::DecryptExt { flags: 1, cipher: 1, plain: 2 });
    assert_eq!(op.results, Extract::Two(ResultKind::Decryption, ResultKind::Verification));
    let op = ctx.decrypt_and_verify_with_flags(&Data(1), &Data(2), DecryptFlags(128));
    assert_eq!(op.call, EngineCall::DecryptExt { flags: 129, cipher: 1, plain: 2 });
    assert_eq!(op.complete(0), Ok(Extract::Two(ResultKind::Decryption, ResultKind::Verification)));
    let plain = ctx.decrypt_with_flags(&Data(1), &Data(2), DecryptFlags(0));
    assert_eq!(plain.call, EngineCall::DecryptExt { flags: 0, cipher: 1, plain: 2 });
    assert_eq!(plain.results, Extract::One(ResultKind::Decryption));
}

#[test]
fn time_before_the_epoch_is_no_expiry() {
    assert_eq!(Timestamp::since_epoch(Ok(0)), Some(Timestamp(0)));
    assert_eq!(Timestamp::since_epoch(Ok(1_700_000_000)), Some(Timestamp(1_700_000_000)));
    assert_eq!(Timestamp::since_epoch(Err(1)), None);
    assert_eq!(Timestamp::since_epoch(Err(u64::MAX)), None);
    assert_eq!(Timestamp(77).secs(), 77);
    assert_eq!(expiry(Timestamp::since_epoch(Err(5))), 0);
    assert_eq!(expiry(Timestamp::since_epoch(Ok(5))), 5);
    let ctx = session();
    let op = ctx
        .create_key(b"u".to_vec(), b"a".to_vec(), Timestamp::since_epoch(Err(86400)))
        .unwrap();
    assert_eq!(
        op.call,
        EngineCall::CreateKey {
            userid: b"u".to_vec(),
            algo: b"a".to_vec(),
            reserved: 0,
            expires: 0,
            flags: 0,
        }
    );
}

#[test]
fn signers_are_counted_from_engine_one_five() {
    assert!(session_on(1, 5).signers().counted);
    assert!(session_on(1, 13).signers().counted);
    assert!(!session_on(1, 4).signers().counted);
    assert_eq!(session_on(1, 4).signers().size_hint(Some(3)), (0, None));
    assert_eq!(session_on(1, 5).signers().size_hint(Some(3)), (3, Some(3)));
}

#[test]
fn encryption_and_decryption_name_their_calls() {
    let ctx = session();
    assert_eq!(
        ctx.encrypt(&vec![key(7)], &Data(1), &Data(2)),
        Operation {
            call: EngineCall::Encrypt { recipients: Some(vec![7]), flags: 0, plain: 1, cipher: 2 },
            results: Extract::One(ResultKind::Encryption),
        }
    );
    assert_eq!(
        ctx.encrypt_with_flags(&Vec::new(), &Data(1), &Data(2), EncryptFlags(32)).call,
        EngineCall::Encrypt { recipients: None, flags: 32, plain: 1, cipher: 2 }
    );
    assert_eq!(
        ctx.encrypt_symmetric(&Data(1), &Data(2)),
        Operation {
            call: EngineCall::Encrypt { recipients: None, flags: 0, plain: 1, cipher: 2 },
            results: Extract::Nothing,
        }
    );
    assert_eq!(
        ctx.encrypt_symmetric_with_flags(&Data(1), &Data(2), EncryptFlags(16)),
        Operation {
            call: EngineCall::Encrypt { recipients: None, flags: 16, plain: 1, cipher: 2 },
            results: Extract::Nothing,
        }
    );
    assert_eq!(
        ctx.sign_and_encrypt(&Vec::new(), &Data(1), &Data(2)).call,
        EngineCall::EncryptSign { recipients: None, flags: 0, plain: 1, cipher: 2 }
    );
    assert_eq!(
        ctx.decrypt(&Data(2), &Data(1)),
        Operation {
            call: EngineCall::Decrypt { cipher: 2, plain: 1 },
            results: Extract::One(ResultKind::Decryption),
        }
    );
    assert_eq!(
        ctx.decrypt_with_flags(&Data(2), &Data(1), DecryptFlags(128)),
        Operation {
            call: EngineCall::DecryptExt { flags: 128, cipher: 2, plain: 1 },
            results: Extract::One(ResultKind::Decryption),
        }
    );
    assert_eq!(
        ctx.query_swdb(Some(b"gnupg".to_vec()), None),
        Operation {
            call: EngineCall::QuerySwdb {
                name: Some(b"gnupg".to_vec()),
                installed_version: None,
                reserved: 0,
            },
            results: Extract::One(ResultKind::QuerySwdb),
        }
    );
    assert_eq!(
        ctx.get_audit_log(&Data(9), AuditLogFlags(129)).call,
        EngineCall::GetAuditLog { output: 9, flags: 129 }
    );
}

#[test]
fn flag_sets_combine_by_their_bits() {
    assert_eq!(CreateKeyFlags::empty().bits(), 0);
    assert_eq!(EncryptFlags(1).union(EncryptFlags(4)).bits(), 5);
    assert_eq!(ExportMode(2).union(ExportMode(2)), ExportMode(2));
    assert_eq!(KeyListMode::from_bits_truncate(1 | 2 | 64).bits(), 3);
    assert_eq!(Protocol::from_raw(0), Protocol::OpenPgp);
    assert_eq!(Protocol::from_raw(5), Protocol::UiServer);
    assert_eq!(Protocol::from_raw(254), Protocol::Default);
    assert_eq!(Protocol::from_raw(77), Protocol::Other(77));
    assert_eq!(Protocol::Other(77).raw(), 77);
    assert_eq!(Protocol::Unknown.raw(), 255);
    assert_eq!(PinentryMode::from_raw(3), PinentryMode::Error);
    assert_eq!(PinentryMode::Loopback.raw(), 4);
    assert_eq!(SignMode::Clear.raw(), 2);
}
