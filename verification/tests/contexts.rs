//! The calls that set libssl contexts up.

use https_proxy::c_openssl::ctx::{
    CString, Calls, Check, CtxCall, NewContext, SslContext, SslContextBuilder, SslContextRef,
    SslFiletype, SslMethod, SslVersion, Step, TlsBackend, X509Store, SSL_CTRL_MODE, SSL_CTRL_SET_MAX_PROTO_VERSION,
    SSL_CTRL_SET_MIN_PROTO_VERSION, SSL_CTRL_SET_READ_AHEAD, SSL_CTRL_SET_SESS_CACHE_MODE,
    SSL_CTRL_SET_SIGALGS_LIST, SSL_MODE_RELEASE_BUFFERS, SSL_SESS_CACHE_CLIENT, SSL_VERIFY_NONE,
    SSL_VERIFY_PEER,
};
use https_proxy::c_openssl::error::{check_ptr, check_ret, ErrorStack};

const CIPHERS: &str =
    "DEFAULT:!aNULL:!eNULL:!MD5:!3DES:!DES:!RC4:!IDEA:!SEED:!aDSS:!SRP:!PSK:!SHA1:!CBC";
const SIGALGS: &str = "ECDSA+SHA256:ECDSA+SHA384:ECDSA+SHA512:ed25519:rsa_pss_rsae_sha256:rsa_pss_rsae_sha384:rsa_pss_rsae_sha512:rsa_pkcs1_sha256:rsa_pkcs1_sha384:rsa_pkcs1_sha512";

fn text(c: &CString) -> String {
    String::from_utf8(c.as_bytes().to_vec()).unwrap()
}

/// A call with its arguments and its check, as text.
fn show(step: &Step) -> String {
    let call = match &step.call {
        CtxCall::SetDefaultVerifyPaths => String::from("default_verify_paths"),
        CtxCall::SetVerify { mode } => format!("verify {}", mode),
        CtxCall::SetCipherList { list } => format!("ciphers {}", text(list)),
        CtxCall::Ctrl { cmd, larg, parg } => {
            let parg = match parg {
                Some(p) => text(p),
                None => String::from("null"),
            };
            format!("ctrl {} {} {}", cmd, larg, parg)
        }
        CtxCall::SetMinProtoVersion { version } => format!("min {}", version),
        CtxCall::SetMaxProtoVersion { version } => format!("max {}", version),
        CtxCall::SetSigalgsList { list } => format!("sigalgs {}", text(list)),
        CtxCall::SetSessionCacheMode { mode } => format!("cache_mode {}", mode),
        CtxCall::SetNewSessionCallback => String::from("new_session_callback"),
        CtxCall::LoadVerifyLocations { file } => format!("verify_locations {}", text(file)),
        CtxCall::UseCertificateFile { file, file_type } => {
            format!("certificate {} {}", text(file), file_type)
        }
        CtxCall::UseCertificateChainFile { file } => format!("chain {}", text(file)),
        CtxCall::UsePrivateKeyFile { file, file_type } => format!("key {} {}", text(file), file_type),
        CtxCall::CheckPrivateKey => String::from("check_key"),
        CtxCall::SetAlpnProtos { protocols, len } => format!("alpn {:?} {}", protocols, len),
        CtxCall::SetCertVerifyCallback { verifier } => format!("verifier {}", verifier),
        CtxCall::SetCertStore { store } => format!("store {}", store.0),
        CtxCall::GetCertStore => String::from("get_store"),
        CtxCall::UpRef => String::from("up_ref"),
    };
    format!("{}: {} ({:?})", step.ctx, call, step.check)
}

fn show_all(steps: &[Step]) -> Vec<String> {
    steps.iter().map(show).collect()
}

fn builder(backend: TlsBackend) -> SslContextBuilder {
    SslContextBuilder::from_ptr(backend, 64)
}

/// Runs calls that return `rets` in turn, and counts them.
fn run(steps: Vec<Step>, rets: &[i64]) -> (usize, Result<(), ErrorStack>) {
    let mut made = 0;
    let mut calls = Calls::begin(steps);
    loop {
        calls = match calls {
            Calls::Call { step, rest } => {
                made += 1;
                Calls::on_return(step, rest, rets[made - 1])
            }
            Calls::Done(result) => return (made, result),
        };
    }
}

#[test]
fn a_context_is_set_up() {
    let new = SslContext::builder(TlsBackend::OpenSsl, SslMethod(8));
    assert_eq!(new, NewContext { backend: TlsBackend::OpenSsl, method: SslMethod(8) });
    let (mut b, steps) = match new.on_created(64) {
        Ok(made) => made,
        Err(_) => panic!("no context"),
    };
    assert_eq!(b.as_ptr_mut(), 64);
    assert_eq!(
        show_all(&steps),
        vec![
            String::from("64: default_verify_paths (Positive)"),
            String::from("64: verify 1 (Any)"),
            format!("64: ciphers {} (Positive)", CIPHERS),
            format!("64: ctrl 98 0 {} (Positive)", SIGALGS),
            String::from("64: ctrl 41 1 null (Any)"),
            String::from("64: ctrl 33 16 null (Any)"),
        ]
    );
    assert_eq!(b.build().as_ptr(), 64);
}

#[test]
fn a_boringssl_context_is_set_up() {
    let steps = match SslContextBuilder::new(TlsBackend::BoringSsl, SslMethod(8)).on_created(64) {
        Ok((_, steps)) => steps,
        Err(_) => panic!("no context"),
    };
    assert_eq!(
        show_all(&steps),
        vec![
            String::from("64: default_verify_paths (Positive)"),
            String::from("64: verify 1 (Any)"),
            format!("64: ciphers {} (Positive)", CIPHERS),
            format!("64: sigalgs {} (Positive)", SIGALGS),
        ]
    );
}

#[test]
fn a_null_context_is_an_error() {
    assert!(NewContext { backend: TlsBackend::OpenSsl, method: SslMethod(8) }.on_created(0).is_err());
    assert_eq!(check_ptr(0), Err(ErrorStack));
    assert_eq!(check_ptr(3), Ok(3));
    assert_eq!(check_ret(1), Ok(1));
    assert_eq!(check_ret(0), Err(ErrorStack));
    assert_eq!(check_ret(-1), Err(ErrorStack));
}

#[test]
fn calls_succeed_together() {
    let steps = || match SslContext::builder(TlsBackend::OpenSsl, SslMethod(8)).on_created(64) {
        Ok((_, steps)) => steps,
        Err(_) => panic!("no context"),
    };
    assert_eq!(run(steps(), &[1, 0, 1, 1, 0, 0]), (6, Ok(())));
    assert_eq!(run(steps(), &[0, 0, 1, 1, 0, 0]), (1, Err(ErrorStack)));
    assert_eq!(run(steps(), &[1, 0, 0, 1, 0, 0]), (3, Err(ErrorStack)));
    assert_eq!(run(steps(), &[1, 0, 1, -1, 0, 0]), (4, Err(ErrorStack)));
    assert_eq!(run(vec![], &[]), (0, Ok(())));
}

#[test]
fn return_values_are_judged() {
    assert_eq!(Check::Any.judge(0), Ok(()));
    assert_eq!(Check::Any.judge(-1), Ok(()));
    assert_eq!(Check::Positive.judge(1), Ok(()));
    assert_eq!(Check::Positive.judge(0), Err(ErrorStack));
    assert_eq!(Check::Positive.judge(-1), Err(ErrorStack));
    assert_eq!(Check::Zero.judge(0), Ok(()));
    assert_eq!(Check::Zero.judge(1), Err(ErrorStack));
}

#[test]
fn resumption_is_enabled_on_demand() {
    let steps = builder(TlsBackend::OpenSsl).enable_client_session_cache();
    assert_eq!(
        show_all(&steps),
        vec!["64: ctrl 44 1 null (Any)", "64: new_session_callback (Any)"]
    );
    assert_eq!(run(steps, &[0, 0]), (2, Ok(())));
    let steps = builder(TlsBackend::BoringSsl).enable_client_session_cache();
    assert_eq!(
        show_all(&steps),
        vec!["64: cache_mode 1 (Any)", "64: new_session_callback (Any)"]
    );
}

#[test]
fn the_read_path_is_tuned() {
    let steps = builder(TlsBackend::OpenSsl).tune_read_path();
    assert_eq!(
        show_all(&steps),
        vec!["64: ctrl 41 1 null (Any)", "64: ctrl 33 16 null (Any)"]
    );
    assert_eq!(run(steps, &[0, -1]), (2, Ok(())));
    assert!(builder(TlsBackend::BoringSsl).tune_read_path().is_empty());
}

#[test]
fn protocol_versions() {
    let mut b = builder(TlsBackend::OpenSsl);
    assert_eq!(
        show_all(&b.set_min_proto_version(SslVersion(0x303))),
        vec!["64: ctrl 123 771 null (Positive)"]
    );
    assert_eq!(
        show_all(&b.set_max_proto_version(SslVersion(0x304))),
        vec!["64: ctrl 124 772 null (Positive)"]
    );
    let mut b = builder(TlsBackend::BoringSsl);
    assert_eq!(show_all(&b.set_min_proto_version(SslVersion(0x303))), vec!["64: min 771 (Positive)"]);
    assert_eq!(show_all(&b.set_max_proto_version(SslVersion(0x304))), vec!["64: max 772 (Positive)"]);
}

#[test]
fn files() {
    let mut b = builder(TlsBackend::OpenSsl);
    let pem = SslFiletype(1);
    assert_eq!(
        show_all(&b.set_ca_file(Some("ca.pem")).unwrap()),
        vec!["64: verify_locations ca.pem (Positive)"]
    );
    assert_eq!(
        show_all(&b.set_certificate_file(Some("cert.pem"), pem).unwrap()),
        vec!["64: certificate cert.pem 1 (Positive)"]
    );
    assert_eq!(
        show_all(&b.set_certificate_chain_file(Some("chain.pem")).unwrap()),
        vec!["64: chain chain.pem (Positive)"]
    );
    let steps = b.set_private_key_file(Some("key.pem"), pem).unwrap();
    assert_eq!(
        show_all(&steps),
        vec!["64: key key.pem 1 (Positive)", "64: check_key (Positive)"]
    );
    assert_eq!(run(steps, &[1, 0]), (2, Err(ErrorStack)));
}

#[test]
fn paths_have_to_be_text_without_zero_bytes() {
    let mut b = builder(TlsBackend::OpenSsl);
    let pem = SslFiletype(1);
    for path in [None, Some("a\0b")] {
        assert!(SslContextBuilder::get_c_file(path).is_err());
        assert!(b.set_ca_file(path).is_err());
        assert!(b.set_certificate_file(path, pem).is_err());
        assert!(b.set_certificate_chain_file(path).is_err());
        assert!(b.set_private_key_file(path, pem).is_err());
    }
    assert!(CString::new("a\0").is_err());
    match SslContextBuilder::get_c_file(Some("d\u{e9}j\u{e0}")) {
        Ok(c) => assert_eq!(c.as_bytes(), "d\u{e9}j\u{e0}".as_bytes()),
        Err(_) => panic!("no path"),
    }
}

#[test]
fn ciphers_and_signature_algorithms() {
    let mut b = builder(TlsBackend::OpenSsl);
    assert_eq!(
        show_all(&b.set_cipher_list("HIGH").unwrap()),
        vec!["64: ciphers HIGH (Positive)"]
    );
    assert!(b.set_cipher_list("HI\0GH").is_err());
    assert_eq!(
        show_all(&b.set_sigalgs_list().unwrap()),
        vec![format!("64: ctrl 98 0 {} (Positive)", SIGALGS)]
    );
}

#[test]
fn verification_store_and_protocols() {
    let mut b = builder(TlsBackend::OpenSsl);
    assert_eq!(show_all(&b.set_verify(SSL_VERIFY_NONE)), vec!["64: verify 0 (Any)"]);
    assert_eq!(show_all(&b.set_cert_verify_callback(5)), vec!["64: verifier 5 (Any)"]);
    assert_eq!(show_all(&b.set_cert_store(X509Store(6))), vec!["64: store 6 (Any)"]);
    assert_eq!(show_all(&b.cert_store_mut()), vec!["64: get_store (Any)"]);
    let steps = b.set_alpn_protos(b"\x02h2");
    assert_eq!(show_all(&steps), vec!["64: alpn [2, 104, 50] 3 (Zero)"]);
    assert_eq!(run(steps, &[1]), (1, Err(ErrorStack)));
}

#[test]
fn contexts_are_shared_by_reference() {
    let context = builder(TlsBackend::OpenSsl).build();
    assert_eq!(context.fmt(), "SslContext");
    let (step, copy) = context.clone();
    assert_eq!(show(&step), "64: up_ref (Any)");
    assert_eq!(copy.as_ptr(), context.as_ptr());
    let (step, owned) = context.as_context_ref().to_owned();
    assert_eq!(show(&step), "64: up_ref (Any)");
    assert_eq!(owned.as_ptr(), 64);
    let (step, borrowed) = SslContextRef::from_ptr(65).to_owned();
    assert_eq!(show(&step), "65: up_ref (Any)");
    assert_eq!(borrowed.as_ptr(), 65);
}

#[test]
fn clones_and_drops_balance() {
    let mut refs = 1;
    let first = builder(TlsBackend::OpenSsl).build();
    let (step, second) = first.clone();
    if let CtxCall::UpRef = step.call {
        refs += 1;
    }
    assert_eq!(refs, 2);
    assert_eq!(first.drop(), 64);
    refs -= 1;
    let (step, third) = second.clone();
    if let CtxCall::UpRef = step.call {
        refs += 1;
    }
    assert_eq!(second.drop(), 64);
    refs -= 1;
    assert_eq!(refs, 1);
    assert_eq!(third.drop(), 64);
    refs -= 1;
    assert_eq!(refs, 0);
}

#[test]
fn a_store_is_handed_over_once() {
    let mut b = builder(TlsBackend::OpenSsl);
    let mut steps = b.set_cert_store(X509Store(6));
    steps.append(&mut b.set_verify(SSL_VERIFY_PEER));
    steps.append(&mut b.set_cert_store(X509Store(7)));
    steps.append(&mut b.cert_store_mut());
    let mut current = 5;
    let mut released = Vec::new();
    let mut returned = None;
    for step in steps {
        match step.call {
            CtxCall::SetCertStore { store } => {
                released.push(current);
                current = store.0;
            }
            CtxCall::GetCertStore => returned = Some(current),
            _ => {}
        }
    }
    assert_eq!(returned, Some(7));
    assert_eq!(released, vec![5, 6]);
    released.push(current);
    assert_eq!(released, vec![5, 6, 7]);
}

#[test]
fn numbers_of_libssl() {
    assert_eq!(SSL_VERIFY_PEER, 1);
    assert_eq!(SSL_CTRL_SET_MIN_PROTO_VERSION, 123);
    assert_eq!(SSL_CTRL_SET_MAX_PROTO_VERSION, 124);
    assert_eq!(SSL_CTRL_SET_SIGALGS_LIST, 98);
    assert_eq!(SSL_CTRL_SET_SESS_CACHE_MODE, 44);
    assert_eq!(SSL_CTRL_MODE, 33);
    assert_eq!(SSL_CTRL_SET_READ_AHEAD, 41);
    assert_eq!(SSL_MODE_RELEASE_BUFFERS, 0x10);
    assert_eq!(SSL_SESS_CACHE_CLIENT, 1);
}
