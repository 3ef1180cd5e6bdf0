use idola::config::text::ConfigText;
use idola::config::{Config, ConfigDoc, ServiceConf, ServiceTable};
use idola::db::sqlite::{b2i, i2b};
use idola::login::handler::{ChallengeStep, SecurityData, SecurityReply};
use idola::pat::Args as PatArgs;
use idola::services::client::padded;
use idola::services::patch::{DataAction, DataRequest, DataService, PatchAction, PatchRequest, PatchService};
use idola::services::shipgate::{ReadEvent, ReadState, SendState};
use idola::services::ServiceType;
use idola::ship::error::{Error, ErrorKind};
use idola::ship::handler::ShipHandler;

fn table(ty: Option<&str>) -> ServiceTable<String> {
    ServiceTable {
        bind: Some("0.0.0.0:11000".to_string()),
        service_type: ty.map(|s| s.to_string()),
        motd: None,
        random_balance: None,
        v4_servers: Some(vec![Some((0x7F00_0001, 11001))]),
    }
}

fn err_of(r: Result<ServiceConf<String>, String>) -> String {
    match r {
        Err(e) => e,
        Ok(_) => panic!("expected a refusal"),
    }
}

#[test]
fn patch_service_defaults() {
    match ServiceConf::from_toml_table(table(Some("patch"))) {
        Ok(ServiceConf::Patch { bind, motd, v4_servers, random_balance }) => {
            assert_eq!(bind, "0.0.0.0:11000");
            assert_eq!(motd, "");
            assert_eq!(v4_servers, vec![(0x7F00_0001, 11001)]);
            assert!(!random_balance);
        },
        _ => panic!("expected a patch service"),
    }
    let mut t = table(Some("patch"));
    t.motd = Some("hello".to_string());
    t.random_balance = Some(true);
    match ServiceConf::from_toml_table(t) {
        Ok(ServiceConf::Patch { motd, random_balance, .. }) => {
            assert_eq!(motd, "hello");
            assert!(random_balance);
        },
        _ => panic!("expected a patch service"),
    }
}

#[test]
fn data_service() {
    match ServiceConf::from_toml_table(table(Some("data"))) {
        Ok(ServiceConf::Data { bind }) => assert_eq!(bind, "0.0.0.0:11000"),
        _ => panic!("expected a data service"),
    }
}

#[test]
fn service_refusals() {
    let mut t = table(Some("patch"));
    t.bind = None;
    assert_eq!(err_of(ServiceConf::from_toml_table(t)), "No bind address specified for service");
    assert_eq!(err_of(ServiceConf::from_toml_table(table(None))), "Service has no type declared");
    assert_eq!(err_of(ServiceConf::from_toml_table(table(Some("ship")))), "invalid service type specified");
    let mut t = table(Some("patch"));
    t.v4_servers = None;
    assert_eq!(err_of(ServiceConf::from_toml_table(t)), "patch service v4_servers field is not an array");
    let mut t = table(Some("patch"));
    t.v4_servers = Some(vec![Some((1, 2)), None]);
    assert_eq!(
        err_of(ServiceConf::from_toml_table(t)),
        "patch service's data address is not a valid IPv4 address:port string"
    );
    let mut t = table(Some("patch"));
    t.v4_servers = Some(vec![]);
    assert_eq!(err_of(ServiceConf::from_toml_table(t)), "patch service has no IPv4 data nodes declared");
}

#[test]
fn config_document() {
    let doc = ConfigDoc {
        idola: Some(Some("data".to_string())),
        services: Some(vec![Some(table(Some("patch"))), Some(table(Some("data")))]),
    };
    match Config::from_toml_value(doc) {
        Ok(c) => {
            assert_eq!(c.data_path, Some("data".to_string()));
            assert_eq!(c.services.len(), 2);
            assert!(matches!(c.services[0], ServiceConf::Patch { .. }));
            assert!(matches!(c.services[1], ServiceConf::Data { .. }));
        },
        Err(e) => panic!("unexpected refusal {}", e),
    }
    let doc: ConfigDoc<String> = ConfigDoc { idola: Some(None), services: None };
    match Config::from_toml_value(doc) {
        Ok(c) => {
            assert_eq!(c.data_path, None);
            assert!(c.services.is_empty());
        },
        Err(e) => panic!("unexpected refusal {}", e),
    }
}

#[test]
fn config_refusals() {
    let doc: ConfigDoc<String> = ConfigDoc { idola: None, services: None };
    assert_eq!(Config::from_toml_value(doc).err(), Some("No idola section".to_string()));
    let doc = ConfigDoc { idola: Some(None), services: Some(vec![Some(table(Some("data"))), None]) };
    assert_eq!(Config::from_toml_value(doc).err(), Some("a configured service is not a TOML table".to_string()));
    let doc = ConfigDoc { idola: Some(None), services: Some(vec![Some(table(Some("bad"))), None]) };
    assert_eq!(Config::from_toml_value(doc).err(), Some("invalid service type specified".to_string()));
}

#[test]
fn shipgate_reading() {
    let mut buf = [0u8; 16];
    let s = ReadState::new();
    assert_eq!(s.wanted(), (0, 8));
    let (s, e) = s.advance(5, &buf);
    assert_eq!((s, e), (ReadState::ReadingHdr(5), ReadEvent::Wait));
    assert_eq!(s.wanted(), (5, 8));
    buf[0] = 0;
    buf[1] = 12;
    let (s, e) = s.advance(3, &buf);
    assert_eq!((s, e), (ReadState::ReadingBody(8, 12), ReadEvent::HeaderDone));
    assert!(s.is_ok());
    assert_eq!(s.wanted(), (8, 12));
    let (s, e) = s.advance(1, &buf);
    assert_eq!((s, e), (ReadState::ReadingBody(9, 12), ReadEvent::Wait));
    let (s, e) = s.advance(3, &buf);
    assert_eq!((s, e), (ReadState::ReadingHdr(0), ReadEvent::Message(12)));
    buf[0] = 0;
    buf[1] = 4;
    let (s, _) = ReadState::ReadingHdr(8).advance(0, &buf);
    assert_eq!(s, ReadState::ReadingBody(8, 4));
    assert!(!s.is_ok());
}

#[test]
fn shipgate_sending() {
    assert_eq!(SendState::new(), SendState::WaitingForMsg);
    assert_eq!(SendState::SendingMsg(0).after_write(4, 10), (SendState::SendingMsg(4), true));
    assert_eq!(SendState::SendingMsg(4).after_write(10, 10), (SendState::WaitingForMsg, false));
    assert_eq!(SendState::WaitingForMsg.after_write(3, 10), (SendState::WaitingForMsg, false));
}

#[test]
fn patch_conversation() {
    let w = PatchService::welcome();
    assert_eq!((w.server_vector, w.client_vector), (0, 0));
    let acts = PatchService::respond(PatchRequest::Welcome);
    assert!(matches!(acts.as_slice(), [PatchAction::AskLogin]));
    let acts = PatchService::respond(PatchRequest::Login);
    assert_eq!(acts.len(), 3);
    match &acts[0] {
        PatchAction::SendMotd(m) => assert_eq!(m.message, "Hi there\nfriend"),
        _ => panic!("expected the greeting"),
    }
    match &acts[1] {
        PatchAction::SendRedirect(r) => assert_eq!((r.ip_addr, r.port), (0x7F00_0001, 11001)),
        _ => panic!("expected the redirect"),
    }
    assert!(matches!(acts[2], PatchAction::Drop));
    assert!(PatchService::respond(PatchRequest::Other).is_empty());
}

#[test]
fn data_conversation() {
    assert_eq!(DataService::respond(DataRequest::Welcome), vec![DataAction::AskLogin]);
    assert_eq!(
        DataService::respond(DataRequest::Login),
        vec![DataAction::StartList, DataAction::SetDirectory, DataAction::InfoFinished]
    );
    assert_eq!(
        DataService::respond(DataRequest::FileListDone),
        vec![DataAction::SetDirectory, DataAction::OneDirUp, DataAction::SendDone]
    );
    assert!(DataService::respond(DataRequest::Other).is_empty());
}

#[test]
fn padding_to_multiples() {
    assert_eq!(padded(0, 8), 0);
    assert_eq!(padded(1, 8), 8);
    assert_eq!(padded(8, 8), 8);
    assert_eq!(padded(9, 4), 12);
    assert_eq!(padded(13, 1), 13);
}

#[test]
fn service_types_differ() {
    assert_ne!(ServiceType::Patch, ServiceType::Bb);
}

#[test]
fn ship_errors() {
    assert_eq!(ErrorKind::IoError.to_str(), "An internal IO error occurred.");
    assert_eq!(ErrorKind::DbError.to_str(), "An internal database error occurred.");
    assert_eq!(ErrorKind::CredentialError.to_str(), "Credential error.");
    assert_eq!(ErrorKind::UnexpectedMsg.to_str(), "An unexpected message was received.");
    assert_eq!(ErrorKind::Other.to_str(), "Other, unspecified error. The developers should be more specific.");
    let e = Error::new(ErrorKind::CredentialError, "bad password".to_string());
    assert_eq!(e.kind, ErrorKind::CredentialError);
    assert_eq!(e.description(), "Credential error.");
    assert_eq!(e.to_string(), "ShipError: Credential error..\nCaused by: bad password");
}

#[test]
fn ship_login_steps() {
    let s = SecurityData { magic: 0xCAFE_B00B, slot: 1, sel_char: 1 };
    assert!(ShipHandler::bb_login(s).is_ok());
    assert_eq!(
        ShipHandler::bb_login(SecurityData { magic: 1, slot: 0, sel_char: 0 }).err(),
        Some("Invalid security data".to_string())
    );
    assert_eq!(
        ShipHandler::sg_login_challenge_ack(s, 2, 5),
        ChallengeStep::Refuse(SecurityReply { err_code: 2, tag: 0, guildcard: 0, team_id: 0, security_data: s, caps: 0 })
    );
    assert_eq!(ShipHandler::sg_login_challenge_ack(s, 0, 5), ChallengeStep::FetchAccount(5));
    assert_eq!(
        ShipHandler::sg_account_info_ack(s, 1234, 8),
        SecurityReply { err_code: 0, tag: 0x10000, guildcard: 1234, team_id: 8, security_data: s, caps: 0x102 }
    );
}

#[test]
fn stored_booleans() {
    assert_eq!(b2i(true), 1);
    assert_eq!(b2i(false), 0);
    assert!(i2b(1));
    assert!(i2b(-5));
    assert!(!i2b(0));
    assert_eq!(i2b(b2i(true)), true);
    assert_eq!(i2b(b2i(false)), false);
}

#[test]
fn patch_server_config_path() {
    let a = PatArgs { arg_config: None, flag_version: false };
    assert_eq!(a.config(), "idola_pat.toml");
    let a = PatArgs { arg_config: Some("x.toml".to_string()), flag_version: true };
    assert_eq!(a.config(), "x.toml");
}

#[test]
fn patch_requests_are_told_apart() {
    assert_eq!(PatchRequest::decode(0x02, 0), PatchRequest::Welcome);
    assert_eq!(PatchRequest::decode(0x02, 4), PatchRequest::Other);
    assert_eq!(PatchRequest::decode(0x04, 8), PatchRequest::Login);
    assert_eq!(PatchRequest::decode(0x04, 0), PatchRequest::Other);
    assert_eq!(PatchRequest::decode(0x10, 0), PatchRequest::Other);
}

#[test]
fn data_requests_are_told_apart() {
    assert_eq!(DataRequest::decode(0x02, 0), DataRequest::Welcome);
    assert_eq!(DataRequest::decode(0x04, 8), DataRequest::Login);
    assert_eq!(DataRequest::decode(0x04, 0), DataRequest::Other);
    assert_eq!(DataRequest::decode(0x10, 0), DataRequest::FileListDone);
    assert_eq!(DataRequest::decode(0x10, 12), DataRequest::FileListDone);
    assert_eq!(DataRequest::decode(0x13, 0), DataRequest::Other);
}

#[test]
fn configuration_text_is_read() {
    let text = "[idola]\ndata_path = \"data\"\n\n[[service]]\nbind = \"0.0.0.0:11000\"\ntype = \"patch\"\nmotd = \"hi\"\nrandom_balance = true\nv4_servers = [\"127.0.0.1:11001\"]\n\n[[service]]\nbind = \"0.0.0.0:11001\"\ntype = \"data\"\n";
    let c = ConfigText::from_toml_string(text).unwrap();
    assert_eq!(c.idola, Some(Some("data".to_string())));
    let services = c.services.unwrap();
    assert_eq!(services.len(), 2);
    let p = services[0].as_ref().unwrap();
    assert_eq!(p.bind.as_deref(), Some("0.0.0.0:11000"));
    assert_eq!(p.service_type.as_deref(), Some("patch"));
    assert_eq!(p.motd.as_deref(), Some("hi"));
    assert_eq!(p.random_balance, Some(true));
    assert_eq!(p.v4_servers, Some(vec![Some("127.0.0.1:11001".to_string())]));
    let d = services[1].as_ref().unwrap();
    assert_eq!(d.service_type.as_deref(), Some("data"));
    assert!(d.motd.is_none());
    assert!(d.v4_servers.is_none());
}

#[test]
fn configuration_text_without_sections() {
    let c = ConfigText::from_toml_string("service = 3\n").unwrap();
    assert_eq!(c.idola, None);
    assert!(c.services.is_none());
    let c = ConfigText::from_toml_string("idola = 1\nservice = [1, 2]\n").unwrap();
    assert_eq!(c.idola, Some(None));
    let s = c.services.unwrap();
    assert!(s[0].is_none() && s[1].is_none());
    let c = ConfigText::from_toml_string("[[service]]\nv4_servers = [5, 6]\n").unwrap();
    assert_eq!(c.services.unwrap()[0].as_ref().unwrap().v4_servers, Some(vec![None, None]));
}

#[test]
fn malformed_configuration_text_is_refused() {
    assert!(ConfigText::from_toml_string("[idola\n").is_err());
}
