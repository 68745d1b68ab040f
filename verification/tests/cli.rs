use tufa::cli::{add, gen, rm, Action, Commands, Tufa};
use tufa::cli::add::stored_secret;
use tufa::cli::gen::generate_otp;
use tufa::crypto::AesData;
use tufa::errors::TufaError;

#[test]
fn test_run_dispatches_add() {
    let tufa = Tufa {
        command: Some(Commands::Add(add::Cmd {
            service: String::from("github"),
            secret: String::from("GEZDGNBV"),
            encrypted: true,
        })),
    };
    match tufa.run() {
        Action::AddService {
            service,
            secret,
            encrypted,
        } => {
            assert_eq!(service, "github");
            assert_eq!(secret, "GEZDGNBV");
            assert!(encrypted);
        }
        _ => panic!("wrong action"),
    }
}

#[test]
fn test_run_dispatches_gen_rm_ls_and_nothing() {
    let gen_tufa = Tufa {
        command: Some(Commands::Gen(gen::Cmd {
            service: String::from("github"),
            oneshot: false,
        })),
    };
    assert!(matches!(
        gen_tufa.run(),
        Action::GenerateCode { oneshot: false, .. }
    ));

    let rm_tufa = Tufa {
        command: Some(Commands::Rm(rm::Cmd {
            service: String::from("github"),
        })),
    };
    match rm_tufa.run() {
        Action::RemoveService { service } => assert_eq!(service, "github"),
        _ => panic!("wrong action"),
    }

    let ls_tufa = Tufa {
        command: Some(Commands::Ls),
    };
    assert!(matches!(ls_tufa.run(), Action::ListServices));

    let empty = Tufa { command: None };
    assert!(matches!(empty.run(), Action::DoNothing));
}

#[test]
fn test_stored_secret_plain() {
    let stored = stored_secret("GEZDGNBV", None).unwrap();
    assert_eq!(stored, "GEZDGNBV");
}

#[test]
fn test_stored_secret_encrypted_round_trips() {
    let stored = stored_secret("GEZDGNBV", Some("hunter2")).unwrap();
    let env = AesData::parse(&stored).unwrap();
    assert_eq!(env.decrypt("hunter2").unwrap(), "GEZDGNBV");
}

#[test]
fn test_generate_otp_plain() {
    let totp = generate_otp("GEZDGNBVGY3TQOJQGEZDGNBVGY3TQOJQ", false, "").unwrap();
    assert_eq!(totp.generate(59).unwrap(), "287082");
}

#[test]
fn test_generate_otp_encrypted() {
    let stored = stored_secret("GEZDGNBVGY3TQOJQGEZDGNBVGY3TQOJQ", Some("pw")).unwrap();
    let totp = generate_otp(&stored, true, "pw").unwrap();
    assert_eq!(totp.generate(59).unwrap(), "287082");

    assert_eq!(
        generate_otp(&stored, true, "wrong").unwrap_err(),
        TufaError::Authentication
    );
    assert_eq!(
        generate_otp("not an envelope", true, "pw").unwrap_err(),
        TufaError::MalformedEnvelope
    );
}

#[test]
fn test_generate_otp_plain_bad_base32() {
    assert_eq!(
        generate_otp("!!!!", false, "").unwrap_err(),
        TufaError::InvalidSecretEncoding
    );
}

#[test]
fn test_error_messages_exist() {
    assert!(!TufaError::Authentication.message().is_empty());
    assert!(!TufaError::MalformedEnvelope.message().is_empty());
    assert!(!TufaError::Clock.message().is_empty());
}
