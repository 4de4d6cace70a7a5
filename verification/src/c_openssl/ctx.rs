//! Contexts of libssl.
//!
//! A setter of [`SslContextBuilder`] returns the calls into libssl that it
//! stands for, each with the rule by which its return value is judged.
//! [`Calls`] makes them one after the other.

use libc::{c_int, c_long, c_uint, c_ushort};
use vstd::prelude::*;
use vstd::utf8::{encode_utf8, is_ascii_chars_encode_utf8};

use crate::c_openssl::error::{check_ptr, check_ret, ErrorStack};
use crate::octets::append;

verus! {

/// `SSL_CTX_ctrl` command: the lowest protocol version.
pub const SSL_CTRL_SET_MIN_PROTO_VERSION: c_int = 123;

/// `SSL_CTX_ctrl` command: the highest protocol version.
pub const SSL_CTRL_SET_MAX_PROTO_VERSION: c_int = 124;

/// `SSL_CTX_ctrl` command: the signature algorithms.
pub const SSL_CTRL_SET_SIGALGS_LIST: c_int = 98;

/// `SSL_CTX_ctrl` command: the session-cache mode.
pub const SSL_CTRL_SET_SESS_CACHE_MODE: c_int = 44;

/// Session-cache mode: cache client sessions, so that the callback for new
/// sessions is called.
pub const SSL_SESS_CACHE_CLIENT: c_int = 1;

/// `SSL_CTX_ctrl` command: adds mode bits.
pub const SSL_CTRL_MODE: c_int = 33;

/// `SSL_CTX_ctrl` command: read-ahead, with which libssl reads as many records
/// at once as fit.
pub const SSL_CTRL_SET_READ_AHEAD: c_int = 41;

/// Mode bit: idle connections give their record buffers back.
pub const SSL_MODE_RELEASE_BUFFERS: c_long = 16;

/// Verification mode: the peer's certificate is not verified.
pub const SSL_VERIFY_NONE: c_int = 0;

/// Verification mode: the peer's certificate is verified.
pub const SSL_VERIFY_PEER: c_int = 1;

/// The library behind the libssl interface. They differ in what is a function
/// and what is a command of `SSL_CTX_ctrl`.
#[derive(Clone, Copy, PartialEq, Eq, Structural, Debug)]
pub enum TlsBackend {
    OpenSsl,
    BoringSsl,
}

/// A method of libssl, by the address of its `SSL_METHOD`.
#[derive(Clone, Copy, PartialEq, Eq, Structural, Debug)]
pub struct SslMethod(pub usize);

/// A protocol version, by its number on the wire.
#[derive(Clone, Copy, PartialEq, Eq, Structural, Debug)]
pub struct SslVersion(pub c_int);

/// A file type, by its number in libssl.
#[derive(Clone, Copy, PartialEq, Eq, Structural, Debug)]
pub struct SslFiletype(pub c_int);

impl SslFiletype {
    pub fn as_raw(&self) -> (r: c_int)
        ensures
            r == self.0,
    {
        self.0
    }
}

/// A certificate store that is owned, by the address of its `X509_STORE`.
pub struct X509Store(pub usize);

/// Text for a C function: bytes without a zero byte.
pub struct CString {
    bytes: Vec<u8>,
}

impl View for CString {
    type V = Seq<u8>;

    closed spec fn view(&self) -> Seq<u8> {
        self.bytes@
    }
}

/// The text for a C function that `text` makes, unless it holds a zero byte.
pub open spec fn c_text(text: Seq<char>) -> Result<Seq<u8>, ErrorStack> {
    if encode_utf8(text).contains(0) {
        Err(ErrorStack)
    } else {
        Ok(encode_utf8(text))
    }
}

impl CString {
    #[verifier::type_invariant]
    spec fn no_zero(self) -> bool {
        !self.bytes@.contains(0)
    }

    /// Makes text for a C function, or fails on a zero byte.
    pub fn new(text: &str) -> (r: Result<CString, ErrorStack>)
        ensures
            match r {
                Ok(c) => c_text(text@) == Ok::<Seq<u8>, ErrorStack>(c@),
                Err(e) => c_text(text@) == Err::<Seq<u8>, ErrorStack>(e),
            },
    {
        let source = text.as_bytes();
        let mut bytes: Vec<u8> = Vec::new();
        let mut i: usize = 0;
        while i < source.len()
            invariant
                source@ == encode_utf8(text@),
                i <= source.len(),
                bytes@ == source@.subrange(0, i as int),
                !bytes@.contains(0),
            decreases source.len() - i,
        {
            let b: u8 = source[i];
            if b == 0 {
                assert(source@[i as int] == 0);
                return Err(ErrorStack);
            }
            let ghost before = bytes@;
            bytes.push(b);
            assert(bytes@ =~= source@.subrange(0, i + 1));
            assert forall|j: int| 0 <= j < bytes@.len() implies bytes@[j] != 0 by {
                assert(j < i ==> before[j] == bytes@[j]);
            }
            i += 1;
        }
        assert(source@.subrange(0, i as int) =~= source@);
        Ok(CString { bytes })
    }

    /// The bytes, without a terminator. None of them is zero.
    pub fn as_bytes(&self) -> (r: &[u8])
        ensures
            r@ == self@,
            !r@.contains(0),
    {
        proof {
            use_type_invariant(self);
        }
        self.bytes.as_slice()
    }
}

/// A call into libssl on an `SSL_CTX`.
pub enum CtxCall {
    /// `SSL_CTX_set_default_verify_paths`
    SetDefaultVerifyPaths,
    /// `SSL_CTX_set_verify`, without a callback
    SetVerify { mode: c_int },
    /// `SSL_CTX_set_cipher_list`
    SetCipherList { list: CString },
    /// `SSL_CTX_ctrl`; the last argument is null without `parg`
    Ctrl { cmd: c_int, larg: c_long, parg: Option<CString> },
    /// `SSL_CTX_set_min_proto_version`
    SetMinProtoVersion { version: c_ushort },
    /// `SSL_CTX_set_max_proto_version`
    SetMaxProtoVersion { version: c_ushort },
    /// `SSL_CTX_set1_sigalgs_list`
    SetSigalgsList { list: CString },
    /// `SSL_CTX_set_session_cache_mode`
    SetSessionCacheMode { mode: c_int },
    /// `SSL_CTX_sess_set_new_cb`, with the callback of the session cache
    SetNewSessionCallback,
    /// `SSL_CTX_load_verify_locations`, without a directory
    LoadVerifyLocations { file: CString },
    /// `SSL_CTX_use_certificate_file`
    UseCertificateFile { file: CString, file_type: c_int },
    /// `SSL_CTX_use_certificate_chain_file`
    UseCertificateChainFile { file: CString },
    /// `SSL_CTX_use_PrivateKey_file`
    UsePrivateKeyFile { file: CString, file_type: c_int },
    /// `SSL_CTX_check_private_key`
    CheckPrivateKey,
    /// `SSL_CTX_set_alpn_protos`
    SetAlpnProtos { protocols: Vec<u8>, len: c_uint },
    /// `SSL_CTX_set_cert_verify_callback`, for the verifier at this address
    SetCertVerifyCallback { verifier: usize },
    /// `SSL_CTX_set_cert_store`; the context owns the store from then on
    SetCertStore { store: X509Store },
    /// `SSL_CTX_get_cert_store`
    GetCertStore,
    /// `SSL_CTX_up_ref`
    UpRef,
}

/// The mathematical value of a [`CtxCall`].
pub enum CallValue {
    SetDefaultVerifyPaths,
    SetVerify { mode: c_int },
    SetCipherList { list: Seq<u8> },
    Ctrl { cmd: c_int, larg: c_long, parg: Option<Seq<u8>> },
    SetMinProtoVersion { version: c_ushort },
    SetMaxProtoVersion { version: c_ushort },
    SetSigalgsList { list: Seq<u8> },
    SetSessionCacheMode { mode: c_int },
    SetNewSessionCallback,
    LoadVerifyLocations { file: Seq<u8> },
    UseCertificateFile { file: Seq<u8>, file_type: c_int },
    UseCertificateChainFile { file: Seq<u8> },
    UsePrivateKeyFile { file: Seq<u8>, file_type: c_int },
    CheckPrivateKey,
    SetAlpnProtos { protocols: Seq<u8>, len: c_uint },
    SetCertVerifyCallback { verifier: usize },
    SetCertStore { store: X509Store },
    GetCertStore,
    UpRef,
}

impl View for CtxCall {
    type V = CallValue;

    open spec fn view(&self) -> CallValue {
        match *self {
            CtxCall::SetDefaultVerifyPaths => CallValue::SetDefaultVerifyPaths,
            CtxCall::SetVerify { mode } => CallValue::SetVerify { mode },
            CtxCall::SetCipherList { list } => CallValue::SetCipherList { list: list@ },
            CtxCall::Ctrl { cmd, larg, parg } => CallValue::Ctrl {
                cmd,
                larg,
                parg: match parg {
                    Some(p) => Some(p@),
                    None => None,
                },
            },
            CtxCall::SetMinProtoVersion { version } => CallValue::SetMinProtoVersion { version },
            CtxCall::SetMaxProtoVersion { version } => CallValue::SetMaxProtoVersion { version },
            CtxCall::SetSigalgsList { list } => CallValue::SetSigalgsList { list: list@ },
            CtxCall::SetSessionCacheMode { mode } => CallValue::SetSessionCacheMode { mode },
            CtxCall::SetNewSessionCallback => CallValue::SetNewSessionCallback,
            CtxCall::LoadVerifyLocations { file } => CallValue::LoadVerifyLocations { file: file@ },
            CtxCall::UseCertificateFile { file, file_type } => CallValue::UseCertificateFile {
                file: file@,
                file_type,
            },
            CtxCall::UseCertificateChainFile { file } => CallValue::UseCertificateChainFile {
                file: file@,
            },
            CtxCall::UsePrivateKeyFile { file, file_type } => CallValue::UsePrivateKeyFile {
                file: file@,
                file_type,
            },
            CtxCall::CheckPrivateKey => CallValue::CheckPrivateKey,
            CtxCall::SetAlpnProtos { protocols, len } => CallValue::SetAlpnProtos {
                protocols: protocols@,
                len,
            },
            CtxCall::SetCertVerifyCallback { verifier } => CallValue::SetCertVerifyCallback {
                verifier,
            },
            CtxCall::SetCertStore { store } => CallValue::SetCertStore { store },
            CtxCall::GetCertStore => CallValue::GetCertStore,
            CtxCall::UpRef => CallValue::UpRef,
        }
    }
}

/// How the return value of a call is judged.
#[derive(Clone, Copy, PartialEq, Eq, Structural, Debug)]
pub enum Check {
    /// Any value will do.
    Any,
    /// The value, as a `c_int`, has to be positive.
    Positive,
    /// The value has to be zero.
    Zero,
}

impl Check {
    /// Whether a return value is a success.
    pub open spec fn accepts(self, ret: c_long) -> bool {
        match self {
            Check::Any => true,
            Check::Positive => (ret as c_int) > 0,
            Check::Zero => ret == 0,
        }
    }

    /// Judges a return value.
    pub fn judge(&self, ret: c_long) -> (r: Result<(), ErrorStack>)
        ensures
            r == (if self.accepts(ret) {
                Ok::<(), ErrorStack>(())
            } else {
                Err(ErrorStack)
            }),
    {
        match self {
            Check::Any => Ok(()),
            Check::Positive => match check_ret(
                #[verifier::truncate]
                (ret as c_int),
            ) {
                Ok(_) => Ok(()),
                Err(e) => Err(e),
            },
            Check::Zero => if ret == 0 {
                Ok(())
            } else {
                Err(ErrorStack)
            },
        }
    }
}

/// A call to make on the `SSL_CTX` at `ctx`.
pub struct Step {
    pub ctx: usize,
    pub call: CtxCall,
    pub check: Check,
}

/// The mathematical value of a [`Step`].
pub struct StepValue {
    pub ctx: usize,
    pub call: CallValue,
    pub check: Check,
}

impl View for Step {
    type V = StepValue;

    open spec fn view(&self) -> StepValue {
        StepValue { ctx: self.ctx, call: self.call@, check: self.check }
    }
}

/// The mathematical value of a list of calls.
pub open spec fn steps_of(steps: Seq<Step>) -> Seq<StepValue> {
    Seq::new(steps.len(), |i: int| steps[i]@)
}

/// The mathematical value of a list of calls that may not have come about.
pub open spec fn plan_of(plan: Result<Vec<Step>, ErrorStack>) -> Result<Seq<StepValue>, ErrorStack> {
    match plan {
        Ok(steps) => Ok(steps_of(steps@)),
        Err(e) => Err(e),
    }
}

/// Calls under way. The first failure ends them.
pub enum Calls {
    /// `step` is to be made, then `rest`.
    Call { step: Step, rest: Vec<Step> },
    /// All calls are made, or one failed.
    Done(Result<(), ErrorStack>),
}

/// The mathematical value of [`Calls`].
pub enum CallsValue {
    Call { step: StepValue, rest: Seq<StepValue> },
    Done(Result<(), ErrorStack>),
}

impl View for Calls {
    type V = CallsValue;

    open spec fn view(&self) -> CallsValue {
        match *self {
            Calls::Call { step, rest } => CallsValue::Call { step: step@, rest: steps_of(rest@) },
            Calls::Done(result) => CallsValue::Done(result),
        }
    }
}

/// Calls of which none is made yet.
pub open spec fn calls_begin(steps: Seq<StepValue>) -> CallsValue {
    if steps.len() == 0 {
        CallsValue::Done(Ok(()))
    } else {
        CallsValue::Call { step: steps[0], rest: steps.drop_first() }
    }
}

/// Calls after one returned `ret`.
pub open spec fn calls_after(step: StepValue, rest: Seq<StepValue>, ret: c_long) -> CallsValue {
    if step.check.accepts(ret) {
        calls_begin(rest)
    } else {
        CallsValue::Done(Err(ErrorStack))
    }
}

impl Calls {
    /// Starts to make `steps` in order.
    pub fn begin(steps: Vec<Step>) -> (r: Calls)
        ensures
            r@ == calls_begin(steps_of(steps@)),
    {
        let mut steps = steps;
        if steps.len() == 0 {
            return Calls::Done(Ok(()));
        }
        let ghost all = steps@;
        let step = steps.remove(0);
        assert(steps_of(steps@) =~= steps_of(all).drop_first());
        Calls::Call { step, rest: steps }
    }

    /// Goes on after `step` returned `ret`.
    pub fn on_return(step: Step, rest: Vec<Step>, ret: c_long) -> (r: Calls)
        ensures
            r@ == calls_after(step@, steps_of(rest@), ret),
    {
        match step.check.judge(ret) {
            Ok(_) => Calls::begin(rest),
            Err(e) => Calls::Done(Err(e)),
        }
    }
}

/// The ciphers that a context offers for protocols before TLS 1.3.
pub open spec fn default_ciphers() -> Seq<char> {
    "DEFAULT:!aNULL:!eNULL:!MD5:!3DES:!DES:!RC4:!IDEA:!SEED:!aDSS:!SRP:!PSK:!SHA1:!CBC"@
}

/// The signature algorithms that a context supports.
pub open spec fn supported_sigalgs() -> Seq<char> {
    "ECDSA+SHA256:ECDSA+SHA384:ECDSA+SHA512:ed25519:rsa_pss_rsae_sha256:rsa_pss_rsae_sha384:rsa_pss_rsae_sha512:rsa_pkcs1_sha256:rsa_pkcs1_sha384:rsa_pkcs1_sha512"@
}

/// A list of one call.
pub open spec fn one(ctx: usize, call: CallValue, check: Check) -> Seq<StepValue> {
    seq![StepValue { ctx, call, check }]
}

/// The calls that set the verification mode.
pub open spec fn verify_steps(ctx: usize, mode: c_int) -> Seq<StepValue> {
    one(ctx, CallValue::SetVerify { mode }, Check::Any)
}

/// The calls that set the ciphers.
pub open spec fn cipher_plan(ctx: usize, list: Seq<char>) -> Result<Seq<StepValue>, ErrorStack> {
    match c_text(list) {
        Ok(list) => Ok(one(ctx, CallValue::SetCipherList { list }, Check::Positive)),
        Err(e) => Err(e),
    }
}

/// The calls that set the signature algorithms.
pub open spec fn sigalgs_steps(backend: TlsBackend, ctx: usize) -> Seq<StepValue> {
    let list = encode_utf8(supported_sigalgs());
    match backend {
        TlsBackend::OpenSsl => one(
            ctx,
            CallValue::Ctrl { cmd: SSL_CTRL_SET_SIGALGS_LIST, larg: 0, parg: Some(list) },
            Check::Positive,
        ),
        TlsBackend::BoringSsl => one(ctx, CallValue::SetSigalgsList { list }, Check::Positive),
    }
}

/// The calls that tune the read path: read-ahead and released buffers. They are
/// commands of OpenSSL only.
pub open spec fn tuning_steps(backend: TlsBackend, ctx: usize) -> Seq<StepValue> {
    match backend {
        TlsBackend::OpenSsl => seq![
            StepValue {
                ctx,
                call: CallValue::Ctrl { cmd: SSL_CTRL_SET_READ_AHEAD, larg: 1, parg: None },
                check: Check::Any,
            },
            StepValue {
                ctx,
                call: CallValue::Ctrl {
                    cmd: SSL_CTRL_MODE,
                    larg: SSL_MODE_RELEASE_BUFFERS,
                    parg: None,
                },
                check: Check::Any,
            },
        ],
        TlsBackend::BoringSsl => Seq::empty(),
    }
}

/// The calls that set a context up.
pub open spec fn setup_steps(backend: TlsBackend, ctx: usize) -> Seq<StepValue> {
    one(ctx, CallValue::SetDefaultVerifyPaths, Check::Positive) + verify_steps(ctx, SSL_VERIFY_PEER)
        + one(
        ctx,
        CallValue::SetCipherList { list: encode_utf8(default_ciphers()) },
        Check::Positive,
    ) + sigalgs_steps(backend, ctx) + tuning_steps(backend, ctx)
}

/// The calls that make a context keep its sessions for resumption.
pub open spec fn resumption_steps(backend: TlsBackend, ctx: usize) -> Seq<StepValue> {
    let mode = match backend {
        TlsBackend::OpenSsl => CallValue::Ctrl {
            cmd: SSL_CTRL_SET_SESS_CACHE_MODE,
            larg: SSL_SESS_CACHE_CLIENT as c_long,
            parg: None,
        },
        TlsBackend::BoringSsl => CallValue::SetSessionCacheMode { mode: SSL_SESS_CACHE_CLIENT },
    };
    one(ctx, mode, Check::Any) + one(ctx, CallValue::SetNewSessionCallback, Check::Any)
}

/// The text of a path for libssl; a path that is not text has none.
pub open spec fn path_text(path: Option<Seq<char>>) -> Result<Seq<u8>, ErrorStack> {
    match path {
        Some(text) => c_text(text),
        None => Err(ErrorStack),
    }
}

/// The characters of an optional string slice.
pub open spec fn path_of(path: Option<&str>) -> Option<Seq<char>> {
    match path {
        Some(s) => Some(s@),
        None => None,
    }
}

/// The call that takes another reference to a context.
pub open spec fn up_ref_step(ctx: usize) -> StepValue {
    StepValue { ctx, call: CallValue::UpRef, check: Check::Any }
}

/// The calls that hand a certificate store over to a context.
pub open spec fn set_store_steps(ctx: usize, store: X509Store) -> Seq<StepValue> {
    one(ctx, CallValue::SetCertStore { store }, Check::Any)
}

/// The calls that ask for the certificate store of a context.
pub open spec fn get_store_steps(ctx: usize) -> Seq<StepValue> {
    one(ctx, CallValue::GetCertStore, Check::Any)
}

/// An owned reference to an `SSL_CTX`.
pub struct SslContext {
    ptr: usize,
}

/// A borrowed `SSL_CTX`.
pub struct SslContextRef {
    ptr: usize,
}

impl SslContext {
    /// The address of the `SSL_CTX`.
    pub closed spec fn handle(self) -> usize {
        self.ptr
    }

    /// Starts to build a context.
    pub fn builder(backend: TlsBackend, method: SslMethod) -> (r: NewContext)
        ensures
            r == (NewContext { backend, method }),
    {
        SslContextBuilder::new(backend, method)
    }

    /// The address of the `SSL_CTX`.
    pub fn as_ptr(&self) -> (r: usize)
        ensures
            r == self.handle(),
    {
        self.ptr
    }

    /// The context as a borrowed one.
    pub fn as_context_ref(&self) -> (r: SslContextRef)
        ensures
            r.handle() == self.handle(),
    {
        SslContextRef { ptr: self.ptr }
    }

    /// Another owned reference to the same `SSL_CTX`, once the call is made that
    /// takes it.
    pub fn clone(&self) -> (r: (Step, SslContext))
        ensures
            r.0@ == up_ref_step(self.handle()),
            r.1.handle() == self.handle(),
    {
        self.as_context_ref().to_owned()
    }

    /// Gives the reference up: `SSL_CTX_free` is to be called with the address.
    pub fn drop(self) -> (ptr: usize)
        ensures
            ptr == self.handle(),
    {
        self.ptr
    }

    /// The text that stands for a context wherever it is printed.
    pub fn fmt(&self) -> (r: &'static str)
        ensures
            r@ == "SslContext"@,
    {
        "SslContext"
    }
}

impl SslContextRef {
    /// The address of the `SSL_CTX`.
    pub closed spec fn handle(self) -> usize {
        self.ptr
    }

    /// Borrows the `SSL_CTX` at this address.
    pub fn from_ptr(ptr: usize) -> (r: Self)
        ensures
            r.handle() == ptr,
    {
        SslContextRef { ptr }
    }

    /// An owned reference to the same `SSL_CTX`, once the call is made that
    /// takes it.
    pub fn to_owned(&self) -> (r: (Step, SslContext))
        ensures
            r.0@ == up_ref_step(self.handle()),
            r.1.handle() == self.handle(),
    {
        (
            Step { ctx: self.ptr, call: CtxCall::UpRef, check: Check::Any },
            SslContext { ptr: self.ptr },
        )
    }
}

/// A context that is to be made by `SSL_CTX_new` with `method`.
#[derive(Clone, Copy, PartialEq, Eq, Structural, Debug)]
pub struct NewContext {
    pub backend: TlsBackend,
    pub method: SslMethod,
}

impl NewContext {
    /// Goes on after `SSL_CTX_new` returned `ptr`: the builder, and the calls that
    /// set the context up. The session cache is not enabled.
    pub fn on_created(self, ptr: usize) -> (r: Result<(SslContextBuilder, Vec<Step>), ErrorStack>)
        ensures
            match r {
                Ok((builder, steps)) => {
                    &&& ptr != 0
                    &&& builder.handle() == ptr
                    &&& builder.backend() == self.backend
                    &&& steps_of(steps@) == setup_steps(self.backend, ptr)
                },
                Err(_) => ptr == 0,
            },
    {
        let ptr = match check_ptr(ptr) {
            Ok(ptr) => ptr,
            Err(e) => return Err(e),
        };
        let mut steps: Vec<Step> = Vec::new();
        steps.push(
            Step { ctx: ptr, call: CtxCall::SetDefaultVerifyPaths, check: Check::Positive },
        );
        let mut builder = SslContextBuilder::from_ptr(self.backend, ptr);
        let mut more = builder.set_verify(SSL_VERIFY_PEER);
        steps.append(&mut more);
        proof {
            lemma_default_ciphers();
        }
        let mut more = match builder.set_cipher_list(
            "DEFAULT:!aNULL:!eNULL:!MD5:!3DES:!DES:!RC4:!IDEA:!SEED:!aDSS:!SRP:!PSK:!SHA1:!CBC",
        ) {
            Ok(more) => more,
            Err(e) => return Err(e),
        };
        steps.append(&mut more);
        let mut more = match builder.set_sigalgs_list() {
            Ok(more) => more,
            Err(e) => return Err(e),
        };
        steps.append(&mut more);
        let mut more = builder.tune_read_path();
        steps.append(&mut more);
        assert(steps_of(steps@) =~= setup_steps(self.backend, ptr));
        Ok((builder, steps))
    }
}

proof fn lemma_default_ciphers()
    ensures
        c_text(default_ciphers()) == Ok::<Seq<u8>, ErrorStack>(encode_utf8(default_ciphers())),
{
    reveal_strlit(
        "DEFAULT:!aNULL:!eNULL:!MD5:!3DES:!DES:!RC4:!IDEA:!SEED:!aDSS:!SRP:!PSK:!SHA1:!CBC",
    );
    is_ascii_chars_encode_utf8(default_ciphers());
}

proof fn lemma_supported_sigalgs()
    ensures
        c_text(supported_sigalgs()) == Ok::<Seq<u8>, ErrorStack>(encode_utf8(supported_sigalgs())),
{
    reveal_strlit(
        "ECDSA+SHA256:ECDSA+SHA384:ECDSA+SHA512:ed25519:rsa_pss_rsae_sha256:rsa_pss_rsae_sha384:rsa_pss_rsae_sha512:rsa_pkcs1_sha256:rsa_pkcs1_sha384:rsa_pkcs1_sha512",
    );
    is_ascii_chars_encode_utf8(supported_sigalgs());
}

/// Builds an [`SslContext`].
pub struct SslContextBuilder {
    backend: TlsBackend,
    context: SslContext,
}

impl SslContextBuilder {
    /// The address of the `SSL_CTX`.
    pub closed spec fn handle(self) -> usize {
        self.context.ptr
    }

    /// The library that the context belongs to.
    pub closed spec fn backend(self) -> TlsBackend {
        self.backend
    }

    /// Starts to build a context.
    pub fn new(backend: TlsBackend, method: SslMethod) -> (r: NewContext)
        ensures
            r == (NewContext { backend, method }),
    {
        NewContext { backend, method }
    }

    /// Creates a builder from the address of an `SSL_CTX`.
    pub fn from_ptr(backend: TlsBackend, ptr: usize) -> (r: Self)
        ensures
            r.handle() == ptr,
            r.backend() == backend,
    {
        SslContextBuilder { backend, context: SslContext { ptr } }
    }

    /// The address of the `SSL_CTX`.
    pub fn as_ptr_mut(&mut self) -> (r: usize)
        ensures
            r == old(self).handle(),
            *final(self) == *old(self),
    {
        self.context.ptr
    }

    /// The context that was built.
    pub fn build(self) -> (r: SslContext)
        ensures
            r.handle() == self.handle(),
    {
        self.context
    }

    fn step(&mut self, call: CtxCall, check: Check) -> (r: Vec<Step>)
        ensures
            steps_of(r@) == one(old(self).handle(), call@, check),
            *final(self) == *old(self),
    {
        let ctx = self.as_ptr_mut();
        let mut steps: Vec<Step> = Vec::new();
        steps.push(Step { ctx, call, check });
        assert(steps_of(steps@) =~= one(ctx, call@, check));
        steps
    }

    /// Makes the context keep its sessions for resumption. This never fails: at
    /// worst, connections run full handshakes.
    ///
    /// A resumed handshake verifies no certificate. So this is only for contexts
    /// without a verifier of their own and without pinned keys.
    pub fn enable_client_session_cache(&mut self) -> (r: Vec<Step>)
        ensures
            steps_of(r@) == resumption_steps(old(self).backend(), old(self).handle()),
            *final(self) == *old(self),
    {
        let mode = match self.backend {
            TlsBackend::OpenSsl => CtxCall::Ctrl {
                cmd: SSL_CTRL_SET_SESS_CACHE_MODE,
                larg: SSL_SESS_CACHE_CLIENT as c_long,
                parg: None,
            },
            TlsBackend::BoringSsl => CtxCall::SetSessionCacheMode { mode: SSL_SESS_CACHE_CLIENT },
        };
        let mut steps = self.step(mode, Check::Any);
        let mut more = self.step(CtxCall::SetNewSessionCallback, Check::Any);
        steps.append(&mut more);
        assert(steps_of(steps@) =~= resumption_steps(self.backend(), self.handle()));
        steps
    }

    /// Tunes the read path for few system calls and little memory. This never
    /// fails: at worst, connections run untuned.
    pub fn tune_read_path(&mut self) -> (r: Vec<Step>)
        ensures
            steps_of(r@) == tuning_steps(old(self).backend(), old(self).handle()),
            *final(self) == *old(self),
    {
        match self.backend {
            TlsBackend::OpenSsl => {
                let mut steps = self.step(
                    CtxCall::Ctrl { cmd: SSL_CTRL_SET_READ_AHEAD, larg: 1, parg: None },
                    Check::Any,
                );
                let ghost first = steps@;
                let mut more = self.step(
                    CtxCall::Ctrl {
                        cmd: SSL_CTRL_MODE,
                        larg: SSL_MODE_RELEASE_BUFFERS,
                        parg: None,
                    },
                    Check::Any,
                );
                let ghost second = more@;
                steps.append(&mut more);
                assert(steps_of(steps@) =~= steps_of(first) + steps_of(second));
                assert(steps_of(steps@) =~= tuning_steps(self.backend(), self.handle()));
                steps
            },
            TlsBackend::BoringSsl => {
                let steps: Vec<Step> = Vec::new();
                assert(steps_of(steps@) =~= Seq::empty());
                steps
            },
        }
    }

    /// Sets the lowest protocol version.
    pub fn set_min_proto_version(&mut self, version: SslVersion) -> (r: Vec<Step>)
        ensures
            steps_of(r@) == one(
                old(self).handle(),
                match old(self).backend() {
                    TlsBackend::OpenSsl => CallValue::Ctrl {
                        cmd: SSL_CTRL_SET_MIN_PROTO_VERSION,
                        larg: version.0 as c_long,
                        parg: None,
                    },
                    TlsBackend::BoringSsl => CallValue::SetMinProtoVersion {
                        version: version.0 as c_ushort,
                    },
                },
                Check::Positive,
            ),
            *final(self) == *old(self),
    {
        let call = match self.backend {
            TlsBackend::OpenSsl => CtxCall::Ctrl {
                cmd: SSL_CTRL_SET_MIN_PROTO_VERSION,
                larg: version.0 as c_long,
                parg: None,
            },
            TlsBackend::BoringSsl => CtxCall::SetMinProtoVersion {
                version: #[verifier::truncate]
                (version.0 as c_ushort),
            },
        };
        self.step(call, Check::Positive)
    }

    /// Sets the highest protocol version.
    pub fn set_max_proto_version(&mut self, version: SslVersion) -> (r: Vec<Step>)
        ensures
            steps_of(r@) == one(
                old(self).handle(),
                match old(self).backend() {
                    TlsBackend::OpenSsl => CallValue::Ctrl {
                        cmd: SSL_CTRL_SET_MAX_PROTO_VERSION,
                        larg: version.0 as c_long,
                        parg: None,
                    },
                    TlsBackend::BoringSsl => CallValue::SetMaxProtoVersion {
                        version: version.0 as c_ushort,
                    },
                },
                Check::Positive,
            ),
            *final(self) == *old(self),
    {
        let call = match self.backend {
            TlsBackend::OpenSsl => CtxCall::Ctrl {
                cmd: SSL_CTRL_SET_MAX_PROTO_VERSION,
                larg: version.0 as c_long,
                parg: None,
            },
            TlsBackend::BoringSsl => CtxCall::SetMaxProtoVersion {
                version: #[verifier::truncate]
                (version.0 as c_ushort),
            },
        };
        self.step(call, Check::Positive)
    }

    /// Loads trusted root certificates from a file of PEM certificates.
    pub fn set_ca_file(&mut self, file: Option<&str>) -> (r: Result<Vec<Step>, ErrorStack>)
        ensures
            plan_of(r) == (match path_text(path_of(file)) {
                Ok(file) => Ok(
                    one(
                        old(self).handle(),
                        CallValue::LoadVerifyLocations { file },
                        Check::Positive,
                    ),
                ),
                Err(e) => Err(e),
            }),
            *final(self) == *old(self),
    {
        match Self::get_c_file(file) {
            Ok(file) => Ok(self.step(CtxCall::LoadVerifyLocations { file }, Check::Positive)),
            Err(e) => Err(e),
        }
    }

    /// Sets the ciphers for protocols before TLS 1.3.
    pub fn set_cipher_list(&mut self, list: &str) -> (r: Result<Vec<Step>, ErrorStack>)
        ensures
            plan_of(r) == cipher_plan(old(self).handle(), list@),
            *final(self) == *old(self),
    {
        match CString::new(list) {
            Ok(list) => Ok(self.step(CtxCall::SetCipherList { list }, Check::Positive)),
            Err(e) => Err(e),
        }
    }

    /// Loads a leaf certificate from a file.
    pub fn set_certificate_file(&mut self, file: Option<&str>, file_type: SslFiletype) -> (r: Result<
        Vec<Step>,
        ErrorStack,
    >)
        ensures
            plan_of(r) == (match path_text(path_of(file)) {
                Ok(file) => Ok(
                    one(
                        old(self).handle(),
                        CallValue::UseCertificateFile { file, file_type: file_type.0 },
                        Check::Positive,
                    ),
                ),
                Err(e) => Err(e),
            }),
            *final(self) == *old(self),
    {
        match Self::get_c_file(file) {
            Ok(file) => Ok(
                self.step(
                    CtxCall::UseCertificateFile { file, file_type: file_type.as_raw() },
                    Check::Positive,
                ),
            ),
            Err(e) => Err(e),
        }
    }

    /// Loads a certificate chain from a file of PEM certificates that starts with
    /// the leaf.
    pub fn set_certificate_chain_file(&mut self, file: Option<&str>) -> (r: Result<
        Vec<Step>,
        ErrorStack,
    >)
        ensures
            plan_of(r) == (match path_text(path_of(file)) {
                Ok(file) => Ok(
                    one(
                        old(self).handle(),
                        CallValue::UseCertificateChainFile { file },
                        Check::Positive,
                    ),
                ),
                Err(e) => Err(e),
            }),
            *final(self) == *old(self),
    {
        match Self::get_c_file(file) {
            Ok(file) => Ok(self.step(CtxCall::UseCertificateChainFile { file }, Check::Positive)),
            Err(e) => Err(e),
        }
    }

    /// Loads a private key from a file, then verifies that it belongs to the
    /// certificate that was loaded before.
    pub fn set_private_key_file(&mut self, file: Option<&str>, file_type: SslFiletype) -> (r: Result<
        Vec<Step>,
        ErrorStack,
    >)
        ensures
            plan_of(r) == (match path_text(path_of(file)) {
                Ok(file) => Ok(
                    one(
                        old(self).handle(),
                        CallValue::UsePrivateKeyFile { file, file_type: file_type.0 },
                        Check::Positive,
                    ) + one(old(self).handle(), CallValue::CheckPrivateKey, Check::Positive),
                ),
                Err(e) => Err(e),
            }),
            *final(self) == *old(self),
    {
        match Self::get_c_file(file) {
            Ok(file) => {
                let mut steps = self.step(
                    CtxCall::UsePrivateKeyFile { file, file_type: file_type.as_raw() },
                    Check::Positive,
                );
                let ghost first = steps@;
                let mut more = self.step(CtxCall::CheckPrivateKey, Check::Positive);
                let ghost second = more@;
                steps.append(&mut more);
                assert(steps_of(steps@) =~= steps_of(first) + steps_of(second));
                Ok(steps)
            },
            Err(e) => Err(e),
        }
    }

    /// The text of a path for libssl. `file` is absent where the path is not
    /// valid Unicode.
    pub fn get_c_file(file: Option<&str>) -> (r: Result<CString, ErrorStack>)
        ensures
            match r {
                Ok(c) => path_text(path_of(file)) == Ok::<Seq<u8>, ErrorStack>(c@),
                Err(e) => path_text(path_of(file)) == Err::<Seq<u8>, ErrorStack>(e),
            },
    {
        match file {
            Some(path) => CString::new(path),
            None => Err(ErrorStack),
        }
    }

    /// Sets the protocols that are offered for application-layer protocol
    /// negotiation.
    pub fn set_alpn_protos(&mut self, protocols: &[u8]) -> (r: Vec<Step>)
        requires
            protocols@.len() <= c_uint::MAX,
        ensures
            steps_of(r@) == one(
                old(self).handle(),
                CallValue::SetAlpnProtos {
                    protocols: protocols@,
                    len: protocols@.len() as c_uint,
                },
                Check::Zero,
            ),
            *final(self) == *old(self),
    {
        let mut copy: Vec<u8> = Vec::new();
        append(&mut copy, protocols);
        assert(copy@ =~= protocols@);
        self.step(
            CtxCall::SetAlpnProtos { protocols: copy, len: protocols.len() as c_uint },
            Check::Zero,
        )
    }

    /// Sets the verification mode.
    pub fn set_verify(&mut self, mode: c_int) -> (r: Vec<Step>)
        ensures
            steps_of(r@) == verify_steps(old(self).handle(), mode),
            *final(self) == *old(self),
    {
        self.step(CtxCall::SetVerify { mode }, Check::Any)
    }

    /// Leaves the verification of certificates to the verifier at this address.
    pub fn set_cert_verify_callback(&mut self, verifier: usize) -> (r: Vec<Step>)
        ensures
            steps_of(r@) == one(
                old(self).handle(),
                CallValue::SetCertVerifyCallback { verifier },
                Check::Any,
            ),
            *final(self) == *old(self),
    {
        self.step(CtxCall::SetCertVerifyCallback { verifier }, Check::Any)
    }

    /// Hands a certificate store over to the context.
    pub fn set_cert_store(&mut self, cert_store: X509Store) -> (r: Vec<Step>)
        ensures
            steps_of(r@) == set_store_steps(old(self).handle(), cert_store),
            *final(self) == *old(self),
    {
        self.step(CtxCall::SetCertStore { store: cert_store }, Check::Any)
    }

    /// Asks for the certificate store of the context; the call returns its
    /// address.
    pub fn cert_store_mut(&mut self) -> (r: Vec<Step>)
        ensures
            steps_of(r@) == get_store_steps(old(self).handle()),
            *final(self) == *old(self),
    {
        self.step(CtxCall::GetCertStore, Check::Any)
    }

    /// Sets the signature algorithms.
    pub fn set_sigalgs_list(&mut self) -> (r: Result<Vec<Step>, ErrorStack>)
        ensures
            plan_of(r) == Ok::<Seq<StepValue>, ErrorStack>(
                sigalgs_steps(old(self).backend(), old(self).handle()),
            ),
            *final(self) == *old(self),
    {
        proof {
            lemma_supported_sigalgs();
        }
        let list = match CString::new(
            "ECDSA+SHA256:ECDSA+SHA384:ECDSA+SHA512:ed25519:rsa_pss_rsae_sha256:rsa_pss_rsae_sha384:rsa_pss_rsae_sha512:rsa_pkcs1_sha256:rsa_pkcs1_sha384:rsa_pkcs1_sha512",
        ) {
            Ok(list) => list,
            Err(e) => return Err(e),
        };
        let call = match self.backend {
            TlsBackend::OpenSsl => CtxCall::Ctrl {
                cmd: SSL_CTRL_SET_SIGALGS_LIST,
                larg: 0,
                parg: Some(list),
            },
            TlsBackend::BoringSsl => CtxCall::SetSigalgsList { list },
        };
        Ok(self.step(call, Check::Positive))
    }
}

/// Calls after a sequence of return values. Values beyond the last call that is
/// made are not looked at.
pub open spec fn calls_run(calls: CallsValue, rets: Seq<c_long>) -> CallsValue
    decreases rets.len(),
{
    match calls {
        CallsValue::Done(result) => calls,
        CallsValue::Call { step, rest } => if rets.len() == 0 {
            calls
        } else {
            calls_run(calls_after(step, rest, rets[0]), rets.drop_first())
        },
    }
}

/// Calls succeed exactly when each of their return values is accepted; the first
/// that is not ends them.
pub proof fn law_calls_succeed_together(steps: Seq<StepValue>, rets: Seq<c_long>)
    requires
        rets.len() == steps.len(),
    ensures
        calls_run(calls_begin(steps), rets) is Done,
        calls_run(calls_begin(steps), rets) == CallsValue::Done(Ok(())) <==> (forall|i: int|
            0 <= i < steps.len() ==> (#[trigger] steps[i]).check.accepts(rets[i])),
        forall|k: int|
            0 <= k < steps.len() && !(#[trigger] steps[k]).check.accepts(rets[k]) ==> calls_run(
                calls_begin(steps),
                rets.take(k + 1),
            ) == CallsValue::Done(Err(ErrorStack)),
    decreases steps.len(),
{
    reveal_with_fuel(calls_run, 2);
    if steps.len() > 0 {
        let step = steps[0];
        let rest = steps.drop_first();
        let later = rets.drop_first();
        law_calls_succeed_together(rest, later);
        if step.check.accepts(rets[0]) {
            if calls_run(calls_begin(steps), rets) == CallsValue::Done(Ok(())) {
                assert forall|i: int| 0 <= i < steps.len() implies (
                #[trigger] steps[i]).check.accepts(rets[i]) by {
                    if i > 0 {
                        assert(rest[i - 1].check.accepts(later[i - 1]));
                    }
                }
            }
            if forall|i: int|
                0 <= i < steps.len() ==> (#[trigger] steps[i]).check.accepts(rets[i]) {
                assert forall|i: int| 0 <= i < rest.len() implies (
                #[trigger] rest[i]).check.accepts(later[i]) by {
                    assert(steps[i + 1].check.accepts(rets[i + 1]));
                }
            }
        }
        assert forall|k: int|
            0 <= k < steps.len() && !(#[trigger] steps[k]).check.accepts(
                rets[k],
            ) implies calls_run(calls_begin(steps), rets.take(k + 1)) == CallsValue::Done(
            Err(ErrorStack),
        ) by {
            let head = rets.take(k + 1);
            assert(head[0] == rets[0]);
            if step.check.accepts(rets[0]) {
                assert(!rest[k - 1].check.accepts(later[k - 1]));
                assert(head.drop_first() =~= later.take(k));
            }
        }
    }
}

/// Whether a call changes how the peer is verified.
pub open spec fn touches_verification(call: CallValue) -> bool {
    match call {
        CallValue::SetDefaultVerifyPaths => true,
        CallValue::SetVerify { mode } => true,
        CallValue::LoadVerifyLocations { file } => true,
        CallValue::SetCertVerifyCallback { verifier } => true,
        CallValue::SetCertStore { store } => true,
        _ => false,
    }
}

/// Whether a call makes a context keep or resume sessions.
pub open spec fn touches_resumption(call: CallValue) -> bool {
    match call {
        CallValue::SetSessionCacheMode { mode } => true,
        CallValue::SetNewSessionCallback => true,
        CallValue::Ctrl { cmd, larg, parg } => cmd == SSL_CTRL_SET_SESS_CACHE_MODE,
        _ => false,
    }
}

/// A new context verifies its peers and resumes no sessions: of the calls that
/// set it up, one makes libssl verify the peer, none sets another mode, and
/// none concerns sessions.
pub proof fn law_new_context_verifies_peers(backend: TlsBackend, ctx: usize)
    ensures
        setup_steps(backend, ctx).contains(
            StepValue {
                ctx,
                call: CallValue::SetVerify { mode: SSL_VERIFY_PEER },
                check: Check::Any,
            },
        ),
        forall|i: int|
            #![trigger setup_steps(backend, ctx)[i]]
            0 <= i < setup_steps(backend, ctx).len() ==> {
                let step = setup_steps(backend, ctx)[i];
                &&& step.ctx == ctx
                &&& step.call matches CallValue::SetVerify { mode } ==> mode == SSL_VERIFY_PEER
                &&& !touches_resumption(step.call)
            },
{
    assert(setup_steps(backend, ctx)[1] == verify_steps(ctx, SSL_VERIFY_PEER)[0]);
}

/// Tuning and resumption leave the verification of peers alone.
pub proof fn law_tuning_leaves_verification_alone(backend: TlsBackend, ctx: usize)
    ensures
        forall|i: int|
            #![trigger tuning_steps(backend, ctx)[i]]
            0 <= i < tuning_steps(backend, ctx).len() ==> !touches_verification(
                tuning_steps(backend, ctx)[i].call,
            ),
        forall|i: int|
            #![trigger resumption_steps(backend, ctx)[i]]
            0 <= i < resumption_steps(backend, ctx).len() ==> !touches_verification(
                resumption_steps(backend, ctx)[i].call,
            ),
{
}

/// Tuning and resumption never fail, whatever libssl returns.
pub proof fn law_tuning_never_fails(backend: TlsBackend, ctx: usize, rets: Seq<c_long>)
    ensures
        rets.len() == tuning_steps(backend, ctx).len() ==> calls_run(
            calls_begin(tuning_steps(backend, ctx)),
            rets,
        ) == CallsValue::Done(Ok(())),
        rets.len() == resumption_steps(backend, ctx).len() ==> calls_run(
            calls_begin(resumption_steps(backend, ctx)),
            rets,
        ) == CallsValue::Done(Ok(())),
{
    if rets.len() == tuning_steps(backend, ctx).len() {
        law_calls_succeed_together(tuning_steps(backend, ctx), rets);
    }
    if rets.len() == resumption_steps(backend, ctx).len() {
        law_calls_succeed_together(resumption_steps(backend, ctx), rets);
    }
}

/// What is done to an owned reference to a context.
pub enum HandleEvent {
    /// It is cloned, and the call that comes with the clone is made.
    Clone,
    /// It is dropped, and `SSL_CTX_free` is called.
    Drop,
}

/// A context shared by handles.
pub struct Shared {
    /// The handles that there are.
    pub handles: nat,
    /// The references that libssl counts.
    pub refs: int,
}

/// The references that libssl counts after a call on the context.
pub open spec fn refs_after(refs: int, call: CallValue) -> int {
    match call {
        CallValue::UpRef => refs + 1,
        _ => refs,
    }
}

/// One event on a context at `ctx`. Without a handle there is nothing to clone
/// or drop.
pub open spec fn share(ctx: usize, shared: Shared, event: HandleEvent) -> Shared {
    if shared.handles == 0 {
        shared
    } else {
        match event {
            HandleEvent::Clone => Shared {
                handles: shared.handles + 1,
                refs: refs_after(shared.refs, up_ref_step(ctx).call),
            },
            HandleEvent::Drop => Shared {
                handles: (shared.handles - 1) as nat,
                refs: shared.refs - 1,
            },
        }
    }
}

/// A context after a sequence of events.
pub open spec fn share_run(ctx: usize, shared: Shared, events: Seq<HandleEvent>) -> Shared
    decreases events.len(),
{
    if events.len() == 0 {
        shared
    } else {
        share(ctx, share_run(ctx, shared, events.drop_last()), events.last())
    }
}

/// Clones and drops balance: however handles are cloned and dropped, libssl
/// counts one reference for each handle beside those that others hold. So a
/// context lives for as long as it has a handle, and the last drop gives up the
/// reference that the first handle came with.
pub proof fn law_handles_balance(ctx: usize, refs: int, events: Seq<HandleEvent>)
    requires
        refs >= 1,
    ensures
        ({
            let end = share_run(ctx, Shared { handles: 1, refs }, events);
            &&& end.refs == refs - 1 + end.handles
            &&& end.handles > 0 ==> end.refs > 0
        }),
    decreases events.len(),
{
    if events.len() > 0 {
        law_handles_balance(ctx, refs, events.drop_last());
    }
}

/// A clone is a reference more, and dropping either handle undoes it.
pub proof fn law_drop_undoes_clone(ctx: usize, shared: Shared)
    requires
        shared.handles > 0,
    ensures
        share(ctx, shared, HandleEvent::Clone).refs == shared.refs + 1,
        share(ctx, share(ctx, shared, HandleEvent::Clone), HandleEvent::Drop) == shared,
{
}

/// The certificate stores of a context, by their addresses. libssl keeps one
/// reference to the current store.
pub struct Stores {
    /// The store of the context.
    pub current: usize,
    /// The references that the context was given, in order.
    pub given: Seq<usize>,
    /// The references that it has released, in order.
    pub released: Seq<usize>,
}

/// The stores of a context that was made with `store`.
pub open spec fn first_store(store: usize) -> Stores {
    Stores { current: store, given: seq![store], released: Seq::empty() }
}

/// The stores after a call: `SSL_CTX_set_cert_store` takes the caller's
/// reference over and releases the one to the store before. No other call
/// changes which store a context has.
pub open spec fn stores_after(stores: Stores, call: CallValue) -> Stores {
    match call {
        CallValue::SetCertStore { store } => Stores {
            current: store.0,
            given: stores.given.push(store.0),
            released: stores.released.push(stores.current),
        },
        _ => stores,
    }
}

/// The stores after a list of calls.
pub open spec fn stores_run(stores: Stores, steps: Seq<StepValue>) -> Stores
    decreases steps.len(),
{
    if steps.len() == 0 {
        stores
    } else {
        stores_after(stores_run(stores, steps.drop_last()), steps.last().call)
    }
}

/// What a context has released once it is freed.
pub open spec fn released_with_context(stores: Stores) -> Seq<usize> {
    stores.released.push(stores.current)
}

/// The store that a call returns.
pub open spec fn store_returned(stores: Stores, call: CallValue) -> Option<usize> {
    match call {
        CallValue::GetCertStore => Some(stores.current),
        _ => None,
    }
}

proof fn lemma_stores_balance(store: usize, steps: Seq<StepValue>)
    ensures
        ({
            let stores = stores_run(first_store(store), steps);
            released_with_context(stores) == stores.given
        }),
    decreases steps.len(),
{
    if steps.len() > 0 {
        lemma_stores_balance(store, steps.drop_last());
    } else {
        assert(Seq::<usize>::empty().push(store) =~= seq![store]);
    }
}

/// A store that is handed over belongs to the context: whatever was called
/// before, the context has that store afterwards and gives it to whoever asks;
/// its reference is not released by the call; and once the context is freed,
/// every reference that it was given is released, each once.
pub proof fn law_store_belongs_to_context(
    ctx: usize,
    first: usize,
    before: Seq<StepValue>,
    store: X509Store,
)
    ensures
        ({
            let earlier = stores_run(first_store(first), before);
            let stores = stores_run(first_store(first), before + set_store_steps(ctx, store));
            &&& stores.current == store.0
            &&& store_returned(stores, get_store_steps(ctx)[0].call) == Some(store.0)
            &&& stores_run(stores, get_store_steps(ctx)) == stores
            &&& stores.given == earlier.given.push(store.0)
            &&& stores.released == earlier.given
            &&& released_with_context(stores) == stores.given
        }),
{
    let steps = before + set_store_steps(ctx, store);
    assert(steps.drop_last() =~= before);
    assert(steps.last() == set_store_steps(ctx, store)[0]);
    lemma_stores_balance(first, before);
    lemma_stores_balance(first, steps);
    assert(get_store_steps(ctx).drop_last() =~= Seq::empty());
    reveal_with_fuel(stores_run, 2);
}

/// A context keeps its store, and the reference to it, until another store is
/// handed over.
pub proof fn law_store_stays(stores: Stores, steps: Seq<StepValue>)
    requires
        forall|i: int| 0 <= i < steps.len() ==> (#[trigger] steps[i]).call !is SetCertStore,
    ensures
        stores_run(stores, steps) == stores,
    decreases steps.len(),
{
    if steps.len() > 0 {
        let before = steps.drop_last();
        assert forall|i: int| 0 <= i < before.len() implies (
        #[trigger] before[i]).call !is SetCertStore by {
            assert(before[i] == steps[i]);
        }
        law_store_stays(stores, before);
    }
}

/// Text is fit for C exactly without a zero byte, and goes over byte by byte. A
/// path is fit where it is text that is.
pub proof fn law_text_for_c(text: Seq<char>, path: &str)
    ensures
        (exists|i: int| 0 <= i < encode_utf8(text).len() && #[trigger] encode_utf8(text)[i] == 0)
            ==> c_text(text) == Err::<Seq<u8>, ErrorStack>(ErrorStack),
        (forall|i: int| 0 <= i < encode_utf8(text).len() ==> #[trigger] encode_utf8(text)[i] != 0)
            ==> c_text(text) == Ok::<Seq<u8>, ErrorStack>(encode_utf8(text)),
        path_text(Some(text)) == c_text(text),
        path_text(None) == Err::<Seq<u8>, ErrorStack>(ErrorStack),
        path_of(Some(path)) == Some(path@),
        path_of(None) is None,
{
}

/// The calls that set an OpenSSL context up, in order and argument by argument.
pub proof fn law_openssl_setup(ctx: usize)
    ensures
        setup_steps(TlsBackend::OpenSsl, ctx) == seq![
            StepValue { ctx, call: CallValue::SetDefaultVerifyPaths, check: Check::Positive },
            StepValue { ctx, call: CallValue::SetVerify { mode: 1 }, check: Check::Any },
            StepValue {
                ctx,
                call: CallValue::SetCipherList {
                    list: encode_utf8(
                        "DEFAULT:!aNULL:!eNULL:!MD5:!3DES:!DES:!RC4:!IDEA:!SEED:!aDSS:!SRP:!PSK:!SHA1:!CBC"@,
                    ),
                },
                check: Check::Positive,
            },
            StepValue {
                ctx,
                call: CallValue::Ctrl {
                    cmd: 98,
                    larg: 0,
                    parg: Some(
                        encode_utf8(
                            "ECDSA+SHA256:ECDSA+SHA384:ECDSA+SHA512:ed25519:rsa_pss_rsae_sha256:rsa_pss_rsae_sha384:rsa_pss_rsae_sha512:rsa_pkcs1_sha256:rsa_pkcs1_sha384:rsa_pkcs1_sha512"@,
                        ),
                    ),
                },
                check: Check::Positive,
            },
            StepValue {
                ctx,
                call: CallValue::Ctrl { cmd: 41, larg: 1, parg: None },
                check: Check::Any,
            },
            StepValue {
                ctx,
                call: CallValue::Ctrl { cmd: 33, larg: 16, parg: None },
                check: Check::Any,
            },
        ],
{
}

/// The calls that set a BoringSSL context up, in order and argument by argument.
pub proof fn law_boringssl_setup(ctx: usize)
    ensures
        setup_steps(TlsBackend::BoringSsl, ctx) == seq![
            StepValue { ctx, call: CallValue::SetDefaultVerifyPaths, check: Check::Positive },
            StepValue { ctx, call: CallValue::SetVerify { mode: 1 }, check: Check::Any },
            StepValue {
                ctx,
                call: CallValue::SetCipherList {
                    list: encode_utf8(
                        "DEFAULT:!aNULL:!eNULL:!MD5:!3DES:!DES:!RC4:!IDEA:!SEED:!aDSS:!SRP:!PSK:!SHA1:!CBC"@,
                    ),
                },
                check: Check::Positive,
            },
            StepValue {
                ctx,
                call: CallValue::SetSigalgsList {
                    list: encode_utf8(
                        "ECDSA+SHA256:ECDSA+SHA384:ECDSA+SHA512:ed25519:rsa_pss_rsae_sha256:rsa_pss_rsae_sha384:rsa_pss_rsae_sha512:rsa_pkcs1_sha256:rsa_pkcs1_sha384:rsa_pkcs1_sha512"@,
                    ),
                },
                check: Check::Positive,
            },
        ],
{
}

/// The calls that tune a context, make it keep its sessions, set its signature
/// algorithms and its verification mode, take a reference to it, and set and ask
/// for its store: which they are, on that very context, argument by argument.
pub proof fn law_calls_of_the_setters(ctx: usize, mode: c_int, store: X509Store)
    ensures
        ({
            let call = |call: CallValue, check: Check| StepValue { ctx, call, check };
            let sigalgs = encode_utf8(
                "ECDSA+SHA256:ECDSA+SHA384:ECDSA+SHA512:ed25519:rsa_pss_rsae_sha256:rsa_pss_rsae_sha384:rsa_pss_rsae_sha512:rsa_pkcs1_sha256:rsa_pkcs1_sha384:rsa_pkcs1_sha512"@,
            );
            let (openssl, boringssl) = (TlsBackend::OpenSsl, TlsBackend::BoringSsl);
            &&& tuning_steps(openssl, ctx) == seq![
                call(CallValue::Ctrl { cmd: 41, larg: 1, parg: None }, Check::Any),
                call(CallValue::Ctrl { cmd: 33, larg: 16, parg: None }, Check::Any),
            ]
            &&& tuning_steps(boringssl, ctx).len() == 0
            &&& resumption_steps(openssl, ctx) == seq![
                call(CallValue::Ctrl { cmd: 44, larg: 1, parg: None }, Check::Any),
                call(CallValue::SetNewSessionCallback, Check::Any),
            ]
            &&& resumption_steps(boringssl, ctx) == seq![
                call(CallValue::SetSessionCacheMode { mode: 1 }, Check::Any),
                call(CallValue::SetNewSessionCallback, Check::Any),
            ]
            &&& sigalgs_steps(openssl, ctx) == seq![
                call(
                    CallValue::Ctrl { cmd: 98, larg: 0, parg: Some(sigalgs) },
                    Check::Positive,
                ),
            ]
            &&& sigalgs_steps(boringssl, ctx) == seq![
                call(CallValue::SetSigalgsList { list: sigalgs }, Check::Positive),
            ]
            &&& verify_steps(ctx, mode) == seq![call(CallValue::SetVerify { mode }, Check::Any)]
            &&& up_ref_step(ctx) == call(CallValue::UpRef, Check::Any)
            &&& set_store_steps(ctx, store) == seq![
                call(CallValue::SetCertStore { store }, Check::Any),
            ]
            &&& get_store_steps(ctx) == seq![call(CallValue::GetCertStore, Check::Any)]
        }),
{
    assert(resumption_steps(TlsBackend::OpenSsl, ctx) =~= seq![
        StepValue {
            ctx,
            call: CallValue::Ctrl { cmd: 44, larg: 1, parg: None },
            check: Check::Any,
        },
        StepValue { ctx, call: CallValue::SetNewSessionCallback, check: Check::Any },
    ]);
    assert(resumption_steps(TlsBackend::BoringSsl, ctx) =~= seq![
        StepValue { ctx, call: CallValue::SetSessionCacheMode { mode: 1 }, check: Check::Any },
        StepValue { ctx, call: CallValue::SetNewSessionCallback, check: Check::Any },
    ]);
}

/// A cipher list without a zero byte is set as it stands, on that very context; any
/// other is an error. A list of one call is that call.
pub proof fn law_ciphers_are_set(ctx: usize, list: Seq<char>, call: CallValue, check: Check)
    ensures
        encode_utf8(list).contains(0) ==> cipher_plan(ctx, list) == Err::<
            Seq<StepValue>,
            ErrorStack,
        >(ErrorStack),
        !encode_utf8(list).contains(0) ==> cipher_plan(ctx, list) == Ok::<
            Seq<StepValue>,
            ErrorStack,
        >(
            seq![
                StepValue {
                    ctx,
                    call: CallValue::SetCipherList { list: encode_utf8(list) },
                    check: Check::Positive,
                },
            ],
        ),
        one(ctx, call, check) == seq![StepValue { ctx, call, check }],
{
}

/// How return values are judged.
pub proof fn law_checks(ret: c_long)
    ensures
        Check::Any.accepts(ret),
        Check::Positive.accepts(ret) <==> (ret as c_int) >= 1,
        Check::Zero.accepts(ret) <==> ret == 0,
{
}

/// Calls are made in their order, each once: after as many accepted returns, the
/// next call is due and those behind it are left.
pub proof fn law_calls_are_made_in_order(steps: Seq<StepValue>, rets: Seq<c_long>)
    requires
        rets.len() <= steps.len(),
        forall|i: int| 0 <= i < rets.len() ==> (#[trigger] steps[i]).check.accepts(rets[i]),
    ensures
        ({
            let n = rets.len() as int;
            calls_run(calls_begin(steps), rets) == (if n < steps.len() {
                CallsValue::Call { step: steps[n], rest: steps.skip(n + 1) }
            } else {
                CallsValue::Done(Ok(()))
            })
        }),
    decreases rets.len(),
{
    reveal_with_fuel(calls_run, 2);
    if rets.len() == 0 {
        if steps.len() > 0 {
            assert(steps.drop_first() =~= steps.skip(1));
        }
    } else {
        let rest = steps.drop_first();
        let later = rets.drop_first();
        assert forall|i: int| 0 <= i < later.len() implies (#[trigger] rest[i]).check.accepts(
            later[i],
        ) by {
            assert(steps[i + 1].check.accepts(rets[i + 1]));
        }
        assert(steps[0].check.accepts(rets[0]));
        law_calls_are_made_in_order(rest, later);
        let n = rets.len() as int;
        if n < steps.len() {
            assert(rest.skip(n) =~= steps.skip(n + 1));
        }
    }
}

/// A call that fails is the last: what is left is not made.
pub proof fn law_failed_call_is_the_last(step: StepValue, rest: Seq<StepValue>, ret: c_long)
    ensures
        step.check.accepts(ret) && rest.len() == 0 ==> calls_after(step, rest, ret)
            == CallsValue::Done(Ok(())),
        step.check.accepts(ret) && rest.len() > 0 ==> calls_after(step, rest, ret) == (
        CallsValue::Call { step: rest[0], rest: rest.skip(1) }),
        !step.check.accepts(ret) ==> calls_after(step, rest, ret) == CallsValue::Done(
            Err(ErrorStack),
        ),
{
    if rest.len() > 0 {
        assert(rest.drop_first() =~= rest.skip(1));
    }
}

/// The numbers of libssl.
pub proof fn law_numbers_of_libssl()
    ensures
        SSL_CTRL_SET_MIN_PROTO_VERSION == 123,
        SSL_CTRL_SET_MAX_PROTO_VERSION == 124,
        SSL_CTRL_SET_SIGALGS_LIST == 98,
        SSL_CTRL_SET_SESS_CACHE_MODE == 44,
        SSL_SESS_CACHE_CLIENT == 1,
        SSL_CTRL_MODE == 33,
        SSL_CTRL_SET_READ_AHEAD == 41,
        SSL_MODE_RELEASE_BUFFERS == 16,
        SSL_VERIFY_NONE == 0,
        SSL_VERIFY_PEER == 1,
{
}

/// The mathematical value of a call with text shows all of the text, in its place.
pub proof fn law_text_calls_value(text: CString, cmd: c_int, larg: c_long, file_type: c_int)
    ensures
        (CtxCall::SetCipherList { list: text })@ == (CallValue::SetCipherList { list: text@ }),
        (CtxCall::Ctrl { cmd, larg, parg: Some(text) })@ == (CallValue::Ctrl {
            cmd,
            larg,
            parg: Some(text@),
        }),
        (CtxCall::Ctrl { cmd, larg, parg: None })@ == (CallValue::Ctrl { cmd, larg, parg: None }),
        (CtxCall::SetSigalgsList { list: text })@ == (CallValue::SetSigalgsList { list: text@ }),
        (CtxCall::LoadVerifyLocations { file: text })@ == (CallValue::LoadVerifyLocations {
            file: text@,
        }),
        (CtxCall::UseCertificateFile { file: text, file_type })@ == (
        CallValue::UseCertificateFile { file: text@, file_type }),
        (CtxCall::UseCertificateChainFile { file: text })@ == (
        CallValue::UseCertificateChainFile { file: text@ }),
        (CtxCall::UsePrivateKeyFile { file: text, file_type })@ == (CallValue::UsePrivateKeyFile {
            file: text@,
            file_type,
        }),
{
}

/// The mathematical value of every other call shows its arguments.
pub proof fn law_plain_calls_value(
    mode: c_int,
    version: c_ushort,
    protocols: Vec<u8>,
    len: c_uint,
    verifier: usize,
    store: X509Store,
)
    ensures
        CtxCall::SetDefaultVerifyPaths@ == CallValue::SetDefaultVerifyPaths,
        (CtxCall::SetVerify { mode })@ == (CallValue::SetVerify { mode }),
        (CtxCall::SetMinProtoVersion { version })@ == (CallValue::SetMinProtoVersion { version }),
        (CtxCall::SetMaxProtoVersion { version })@ == (CallValue::SetMaxProtoVersion { version }),
        (CtxCall::SetSessionCacheMode { mode })@ == (CallValue::SetSessionCacheMode { mode }),
        CtxCall::SetNewSessionCallback@ == CallValue::SetNewSessionCallback,
        CtxCall::CheckPrivateKey@ == CallValue::CheckPrivateKey,
        (CtxCall::SetAlpnProtos { protocols, len })@ == (CallValue::SetAlpnProtos {
            protocols: protocols@,
            len,
        }),
        (CtxCall::SetCertVerifyCallback { verifier })@ == (CallValue::SetCertVerifyCallback {
            verifier,
        }),
        (CtxCall::SetCertStore { store })@ == (CallValue::SetCertStore { store }),
        CtxCall::GetCertStore@ == CallValue::GetCertStore,
        CtxCall::UpRef@ == CallValue::UpRef,
{
}

/// The mathematical value of a list of calls shows every call with its context and
/// its check, in order.
pub proof fn law_steps_value(
    ctx: usize,
    call: CtxCall,
    check: Check,
    step: Step,
    steps: Vec<Step>,
    end: Result<(), ErrorStack>,
)
    ensures
        (Step { ctx, call, check })@ == (StepValue { ctx, call: call@, check }),
        steps_of(steps@).len() == steps@.len(),
        forall|i: int| 0 <= i < steps@.len() ==> #[trigger] steps_of(steps@)[i] == steps@[i]@,
        plan_of(Ok(steps)) == Ok::<Seq<StepValue>, ErrorStack>(steps_of(steps@)),
        plan_of(Err(ErrorStack)) == Err::<Seq<StepValue>, ErrorStack>(ErrorStack),
        (Calls::Call { step, rest: steps })@ == (CallsValue::Call {
            step: step@,
            rest: steps_of(steps@),
        }),
        Calls::Done(end)@ == CallsValue::Done(end),
{
}

/// Whether a list of calls is the call `call` on the context at `ctx`, judged by
/// `check`, and nothing else.
pub open spec fn is_only(steps: Seq<Step>, ctx: usize, call: CallValue, check: Check) -> bool {
    steps.len() == 1 && steps[0].ctx == ctx && steps[0].call@ == call && steps[0].check == check
}

/// Whether `c` is what C gets of `text`: its bytes, none of them zero.
pub open spec fn is_c_text(c: Seq<u8>, text: Seq<char>) -> bool {
    c == encode_utf8(text) && forall|i: int| 0 <= i < c.len() ==> #[trigger] c[i] != 0
}

/// Text goes over to C byte by byte, and does so exactly without a zero byte. A path
/// goes over as its text.
pub proof fn law_c_strings(
    text: &str,
    path: Option<&str>,
    r: Result<CString, ErrorStack>,
    file: Result<CString, ErrorStack>,
    c: CString,
    bytes: &[u8],
)
    requires
        call_ensures(CString::new, (text,), r),
        call_ensures(SslContextBuilder::get_c_file, (path,), file),
        call_ensures(CString::as_bytes, (&c,), bytes),
    ensures
        r is Ok <==> !encode_utf8(text@).contains(0),
        r == Ok::<CString, ErrorStack>(c) ==> is_c_text(bytes@, text@),
        path is None ==> file is Err,
        path matches Some(p) ==> (file is Ok <==> !encode_utf8(p@).contains(0)),
        file == Ok::<CString, ErrorStack>(c) ==> path is Some && is_c_text(bytes@, path->0@),
{
}

/// A return value is judged by its check, and calls go on in order while their
/// values are accepted.
pub proof fn law_on_return(
    check: &Check,
    value: c_long,
    judged: Result<(), ErrorStack>,
    steps: Vec<Step>,
    begun: Calls,
    step: Step,
    rest: Vec<Step>,
    ret: c_long,
    r: Calls,
)
    requires
        call_ensures(Check::judge, (check, value), judged),
        call_ensures(Calls::begin, (steps,), begun),
        call_ensures(Calls::on_return, (step, rest, ret), r),
    ensures
        judged is Ok <==> match *check {
            Check::Any => true,
            Check::Positive => (value as c_int) >= 1,
            Check::Zero => value == 0,
        },
        steps@.len() == 0 ==> begun == Calls::Done(Ok(())),
        steps@.len() > 0 ==> (begun matches Calls::Call { step: s, rest: more } && s@ == steps@[0]@
            && more@.len() == steps@.len() - 1 && forall|i: int|
            0 <= i < more@.len() ==> (#[trigger] more@[i])@ == steps@[i + 1]@),
        ({
            let good = match step.check {
                Check::Any => true,
                Check::Positive => (ret as c_int) >= 1,
                Check::Zero => ret == 0,
            };
            &&& !good ==> r == Calls::Done(Err(ErrorStack))
            &&& good && rest@.len() == 0 ==> r == Calls::Done(Ok(()))
            &&& good && rest@.len() > 0 ==> (r matches Calls::Call { step: s, rest: more } && s@
                == rest@[0]@ && more@.len() == rest@.len() - 1 && forall|i: int|
                0 <= i < more@.len() ==> (#[trigger] more@[i])@ == rest@[i + 1]@)
        }),
{
    if let Calls::Call { step: s, rest: more } = begun {
        assert(steps_of(more@).len() == more@.len());
        assert forall|i: int| 0 <= i < more@.len() implies (#[trigger] more@[i])@ == steps@[i
            + 1]@ by {
            assert(steps_of(more@)[i] == steps_of(steps@).drop_first()[i]);
        }
    }
    if let Calls::Call { step: s, rest: more } = r {
        assert(steps_of(more@).len() == more@.len());
        assert forall|i: int| 0 <= i < more@.len() implies (#[trigger] more@[i])@ == rest@[i
            + 1]@ by {
            assert(steps_of(more@)[i] == steps_of(rest@).drop_first()[i]);
        }
    }
}

/// A context is handed on by its address, from the builder to its clones and to the
/// end; a clone comes with the call that takes its reference.
pub proof fn law_context_address(
    backend: TlsBackend,
    ptr: usize,
    builder: SslContextBuilder,
    context: SslContext,
    shown: usize,
    borrowed: SslContextRef,
    owned: (Step, SslContext),
    cloned: (Step, SslContext),
    given_up: usize,
    text: &'static str,
)
    requires
        call_ensures(SslContextBuilder::from_ptr, (backend, ptr), builder),
        call_ensures(SslContextBuilder::build, (builder,), context),
        call_ensures(SslContext::as_ptr, (&context,), shown),
        call_ensures(SslContext::as_context_ref, (&context,), borrowed),
        call_ensures(SslContextRef::to_owned, (&borrowed,), owned),
        call_ensures(SslContext::clone, (&context,), cloned),
        call_ensures(SslContext::drop, (cloned.1,), given_up),
        call_ensures(SslContext::fmt, (&context,), text),
    ensures
        shown == ptr,
        owned.0.ctx == ptr && owned.0.call is UpRef && owned.0.check == Check::Any,
        owned.1.handle() == ptr,
        cloned.0.ctx == ptr && cloned.0.call is UpRef && cloned.0.check == Check::Any,
        given_up == ptr,
        text@ == "SslContext"@,
{
}

/// A borrowed context stands for its address, and so does the reference that is
/// taken from it.
pub proof fn law_borrowed_context(ptr: usize, borrowed: SslContextRef, owned: (Step, SslContext))
    requires
        call_ensures(SslContextRef::from_ptr, (ptr,), borrowed),
        call_ensures(SslContextRef::to_owned, (&borrowed,), owned),
    ensures
        owned.0.ctx == ptr && owned.0.call is UpRef && owned.0.check == Check::Any,
        owned.1.handle() == ptr,
{
}

/// A context is made with the method that it is asked for. Null is an error; any
/// other address is set up, for its backend, by the calls listed in
/// [`law_openssl_setup`] and [`law_boringssl_setup`].
pub proof fn law_on_created(
    backend: TlsBackend,
    method: SslMethod,
    new: NewContext,
    also: NewContext,
    ptr: usize,
    r: Result<(SslContextBuilder, Vec<Step>), ErrorStack>,
)
    requires
        call_ensures(SslContext::builder, (backend, method), new),
        call_ensures(SslContextBuilder::new, (backend, method), also),
        call_ensures(NewContext::on_created, (new, ptr), r),
    ensures
        new.backend == backend && new.method == method && also == new,
        r is Ok <==> ptr != 0,
        r matches Ok((builder, steps)) ==> {
            &&& builder.handle() == ptr
            &&& builder.backend() == backend
            &&& steps@.len() == (if backend == TlsBackend::OpenSsl {
                6int
            } else {
                4
            })
            &&& forall|i: int| 0 <= i < steps@.len() ==> (#[trigger] steps@[i]).ctx == ptr
            &&& steps@[0].call is SetDefaultVerifyPaths && steps@[0].check == Check::Positive
            &&& steps@[1].call@ == (CallValue::SetVerify { mode: 1 })
            &&& steps@[2].call@ == (CallValue::SetCipherList { list: encode_utf8("DEFAULT:!aNULL:!eNULL:!MD5:!3DES:!DES:!RC4:!IDEA:!SEED:!aDSS:!SRP:!PSK:!SHA1:!CBC"@) })
            &&& steps@[2].check == Check::Positive
            &&& steps@[3].check == Check::Positive
            &&& backend == TlsBackend::BoringSsl ==> steps@[3].call@ == (
            CallValue::SetSigalgsList { list: encode_utf8("ECDSA+SHA256:ECDSA+SHA384:ECDSA+SHA512:ed25519:rsa_pss_rsae_sha256:rsa_pss_rsae_sha384:rsa_pss_rsae_sha512:rsa_pkcs1_sha256:rsa_pkcs1_sha384:rsa_pkcs1_sha512"@) })
            &&& backend == TlsBackend::OpenSsl ==> {
                &&& steps@[3].call@ == (CallValue::Ctrl {
                    cmd: 98,
                    larg: 0,
                    parg: Some(encode_utf8("ECDSA+SHA256:ECDSA+SHA384:ECDSA+SHA512:ed25519:rsa_pss_rsae_sha256:rsa_pss_rsae_sha384:rsa_pss_rsae_sha512:rsa_pkcs1_sha256:rsa_pkcs1_sha384:rsa_pkcs1_sha512"@)),
                })
                &&& steps@[4].call@ == (CallValue::Ctrl { cmd: 41, larg: 1, parg: None })
                &&& steps@[4].check == Check::Any
                &&& steps@[5].call@ == (CallValue::Ctrl { cmd: 33, larg: 16, parg: None })
                &&& steps@[5].check == Check::Any
            }
        },
{
    if let Ok((builder, steps)) = r {
        law_openssl_setup(ptr);
        law_boringssl_setup(ptr);
        assert(steps_of(steps@).len() == steps@.len());
        assert forall|i: int| 0 <= i < steps@.len() implies (#[trigger] steps@[i]).ctx == ptr by {
            assert(steps_of(steps@)[i] == steps@[i]@);
        }
        assert(steps_of(steps@)[0] == steps@[0]@);
        assert(steps_of(steps@)[1] == steps@[1]@);
        assert(steps_of(steps@)[2] == steps@[2]@);
        assert(steps_of(steps@)[3] == steps@[3]@);
        if backend == TlsBackend::OpenSsl {
            assert(steps_of(steps@)[4] == steps@[4]@);
            assert(steps_of(steps@)[5] == steps@[5]@);
        }
    }
}

proof fn lemma_only(steps: Seq<Step>, ctx: usize, call: CallValue, check: Check)
    requires
        steps_of(steps) == seq![StepValue { ctx, call, check }],
    ensures
        is_only(steps, ctx, call, check),
{
    assert(steps_of(steps).len() == steps.len());
    assert(steps_of(steps)[0] == steps[0]@);
}

/// The lowest and the highest protocol version are set as given, on that very
/// context, and have to succeed.
pub proof fn law_set_proto_versions(
    builder: &mut SslContextBuilder,
    version: SslVersion,
    lowest: Vec<Step>,
    highest: Vec<Step>,
)
    requires
        call_ensures(SslContextBuilder::set_min_proto_version, (builder, version), lowest),
        call_ensures(SslContextBuilder::set_max_proto_version, (builder, version), highest),
    ensures
        *final(builder) == *old(builder),
        ({
            let ctx = old(builder).handle();
            match old(builder).backend() {
                TlsBackend::OpenSsl => {
                    &&& is_only(
                        lowest@,
                        ctx,
                        CallValue::Ctrl { cmd: 123, larg: version.0 as c_long, parg: None },
                        Check::Positive,
                    )
                    &&& is_only(
                        highest@,
                        ctx,
                        CallValue::Ctrl { cmd: 124, larg: version.0 as c_long, parg: None },
                        Check::Positive,
                    )
                },
                TlsBackend::BoringSsl => {
                    &&& is_only(
                        lowest@,
                        ctx,
                        CallValue::SetMinProtoVersion { version: version.0 as c_ushort },
                        Check::Positive,
                    )
                    &&& is_only(
                        highest@,
                        ctx,
                        CallValue::SetMaxProtoVersion { version: version.0 as c_ushort },
                        Check::Positive,
                    )
                },
            }
        }),
{
    let ctx = old(builder).handle();
    match old(builder).backend() {
        TlsBackend::OpenSsl => {
            let low = CallValue::Ctrl { cmd: 123, larg: version.0 as c_long, parg: None };
            let high = CallValue::Ctrl { cmd: 124, larg: version.0 as c_long, parg: None };
            lemma_only(lowest@, ctx, low, Check::Positive);
            lemma_only(highest@, ctx, high, Check::Positive);
        },
        TlsBackend::BoringSsl => {
            let low = CallValue::SetMinProtoVersion { version: version.0 as c_ushort };
            let high = CallValue::SetMaxProtoVersion { version: version.0 as c_ushort };
            lemma_only(lowest@, ctx, low, Check::Positive);
            lemma_only(highest@, ctx, high, Check::Positive);
        },
    }
}

/// Files are loaded by their path, byte by byte, into that very context, and have to
/// load; a path that is not text, or has a zero byte, is an error. A private key is
/// verified against the certificate right after it is loaded.
pub proof fn law_set_files(
    builder: &mut SslContextBuilder,
    file: Option<&str>,
    file_type: SslFiletype,
    raw: c_int,
    ca: Result<Vec<Step>, ErrorStack>,
    certificate: Result<Vec<Step>, ErrorStack>,
    chain: Result<Vec<Step>, ErrorStack>,
    key: Result<Vec<Step>, ErrorStack>,
)
    requires
        call_ensures(SslFiletype::as_raw, (&file_type,), raw),
        call_ensures(SslContextBuilder::set_ca_file, (builder, file), ca),
        call_ensures(SslContextBuilder::set_certificate_file, (builder, file, file_type), certificate),
        call_ensures(SslContextBuilder::set_certificate_chain_file, (builder, file), chain),
        call_ensures(SslContextBuilder::set_private_key_file, (builder, file, file_type), key),
    ensures
        raw == file_type.0,
        *final(builder) == *old(builder),
        ({
            let fit = file matches Some(path) && !encode_utf8(path@).contains(0);
            &&& ca is Ok <==> fit
            &&& certificate is Ok <==> fit
            &&& chain is Ok <==> fit
            &&& key is Ok <==> fit
            &&& fit ==> {
                let ctx = old(builder).handle();
                let path = encode_utf8(file->0@);
                &&& is_only(
                    ca->Ok_0@,
                    ctx,
                    CallValue::LoadVerifyLocations { file: path },
                    Check::Positive,
                )
                &&& is_only(
                    certificate->Ok_0@,
                    ctx,
                    CallValue::UseCertificateFile { file: path, file_type: raw },
                    Check::Positive,
                )
                &&& is_only(
                    chain->Ok_0@,
                    ctx,
                    CallValue::UseCertificateChainFile { file: path },
                    Check::Positive,
                )
                &&& key->Ok_0@.len() == 2
                &&& is_only(
                    key->Ok_0@.take(1),
                    ctx,
                    CallValue::UsePrivateKeyFile { file: path, file_type: raw },
                    Check::Positive,
                )
                &&& is_only(
                    key->Ok_0@.skip(1),
                    ctx,
                    CallValue::CheckPrivateKey,
                    Check::Positive,
                )
            }
        }),
{
    if file is Some && !encode_utf8(file->0@).contains(0) {
        let ctx = old(builder).handle();
        let path = encode_utf8(file->0@);
        lemma_only(
            ca->Ok_0@,
            ctx,
            CallValue::LoadVerifyLocations { file: path },
            Check::Positive,
        );
        lemma_only(
            certificate->Ok_0@,
            ctx,
            CallValue::UseCertificateFile { file: path, file_type: raw },
            Check::Positive,
        );
        lemma_only(
            chain->Ok_0@,
            ctx,
            CallValue::UseCertificateChainFile { file: path },
            Check::Positive,
        );
        let steps = key->Ok_0@;
        assert(steps_of(steps).len() == steps.len());
        assert(steps_of(steps)[0] == steps[0]@);
        assert(steps_of(steps)[1] == steps[1]@);
    }
}

/// The other setters make just their own call, with the arguments that they are
/// given, on that very context: the ciphers and the signature algorithms have to be
/// accepted, the protocols have to return zero, and the rest cannot fail.
pub proof fn law_set_others(
    builder: &mut SslContextBuilder,
    list: &str,
    ciphers: Result<Vec<Step>, ErrorStack>,
    sigalgs: Result<Vec<Step>, ErrorStack>,
    protocols: &[u8],
    alpn: Vec<Step>,
    mode: c_int,
    verify: Vec<Step>,
    verifier: usize,
    callback: Vec<Step>,
    store: X509Store,
    set: Vec<Step>,
    get: Vec<Step>,
)
    requires
        call_ensures(SslContextBuilder::set_cipher_list, (builder, list), ciphers),
        call_ensures(SslContextBuilder::set_sigalgs_list, (builder,), sigalgs),
        call_ensures(SslContextBuilder::set_alpn_protos, (builder, protocols), alpn),
        call_ensures(SslContextBuilder::set_verify, (builder, mode), verify),
        call_ensures(SslContextBuilder::set_cert_verify_callback, (builder, verifier), callback),
        call_ensures(SslContextBuilder::set_cert_store, (builder, store), set),
        call_ensures(SslContextBuilder::cert_store_mut, (builder,), get),
        protocols@.len() <= c_uint::MAX,
    ensures
        *final(builder) == *old(builder),
        ({
            let ctx = old(builder).handle();
            let text = encode_utf8(list@);
            let all = encode_utf8("ECDSA+SHA256:ECDSA+SHA384:ECDSA+SHA512:ed25519:rsa_pss_rsae_sha256:rsa_pss_rsae_sha384:rsa_pss_rsae_sha512:rsa_pkcs1_sha256:rsa_pkcs1_sha384:rsa_pkcs1_sha512"@);
            &&& ciphers is Ok <==> !text.contains(0)
            &&& ciphers matches Ok(steps) ==> is_only(
                steps@,
                ctx,
                CallValue::SetCipherList { list: text },
                Check::Positive,
            )
            &&& sigalgs matches Ok(steps) && is_only(
                steps@,
                ctx,
                (match old(builder).backend() {
                    TlsBackend::OpenSsl => CallValue::Ctrl { cmd: 98, larg: 0, parg: Some(all) },
                    TlsBackend::BoringSsl => CallValue::SetSigalgsList { list: all },
                }),
                Check::Positive,
            )
            &&& is_only(
                alpn@,
                ctx,
                CallValue::SetAlpnProtos {
                    protocols: protocols@,
                    len: protocols@.len() as c_uint,
                },
                Check::Zero,
            )
            &&& is_only(verify@, ctx, CallValue::SetVerify { mode }, Check::Any)
            &&& is_only(callback@, ctx, CallValue::SetCertVerifyCallback { verifier }, Check::Any)
            &&& is_only(set@, ctx, CallValue::SetCertStore { store }, Check::Any)
            &&& is_only(get@, ctx, CallValue::GetCertStore, Check::Any)
        }),
{
    let ctx = old(builder).handle();
    let text = encode_utf8(list@);
    let all = encode_utf8("ECDSA+SHA256:ECDSA+SHA384:ECDSA+SHA512:ed25519:rsa_pss_rsae_sha256:rsa_pss_rsae_sha384:rsa_pss_rsae_sha512:rsa_pkcs1_sha256:rsa_pkcs1_sha384:rsa_pkcs1_sha512"@);
    law_calls_of_the_setters(ctx, mode, store);
    if let Ok(steps) = ciphers {
        lemma_only(steps@, ctx, CallValue::SetCipherList { list: text }, Check::Positive);
    }
    if let Ok(steps) = sigalgs {
        match old(builder).backend() {
            TlsBackend::OpenSsl => {
                let call = CallValue::Ctrl { cmd: 98, larg: 0, parg: Some(all) };
                lemma_only(steps@, ctx, call, Check::Positive);
            },
            TlsBackend::BoringSsl => {
                lemma_only(steps@, ctx, CallValue::SetSigalgsList { list: all }, Check::Positive);
            },
        }
    }
    lemma_only(
        alpn@,
        ctx,
        CallValue::SetAlpnProtos { protocols: protocols@, len: protocols@.len() as c_uint },
        Check::Zero,
    );
    lemma_only(verify@, ctx, CallValue::SetVerify { mode }, Check::Any);
    lemma_only(callback@, ctx, CallValue::SetCertVerifyCallback { verifier }, Check::Any);
    lemma_only(set@, ctx, CallValue::SetCertStore { store }, Check::Any);
    lemma_only(get@, ctx, CallValue::GetCertStore, Check::Any);
}

/// Resumption and tuning are the calls listed in [`law_calls_of_the_setters`], on
/// that very context, and change nothing in the builder, whose address stays.
pub proof fn law_set_resumption_and_tuning(
    builder: &mut SslContextBuilder,
    resumption: Vec<Step>,
    tuning: Vec<Step>,
    ptr: usize,
)
    requires
        call_ensures(SslContextBuilder::enable_client_session_cache, (builder,), resumption),
        call_ensures(SslContextBuilder::tune_read_path, (builder,), tuning),
        call_ensures(SslContextBuilder::as_ptr_mut, (builder,), ptr),
    ensures
        *final(builder) == *old(builder),
        ptr == old(builder).handle(),
        resumption@.len() == 2,
        resumption@[0].ctx == ptr && resumption@[0].check == Check::Any,
        resumption@[1].ctx == ptr && resumption@[1].check == Check::Any,
        resumption@[1].call is SetNewSessionCallback,
        old(builder).backend() == TlsBackend::OpenSsl ==> {
            &&& resumption@[0].call@ == (CallValue::Ctrl { cmd: 44, larg: 1, parg: None })
            &&& tuning@.len() == 2
            &&& is_only(
                tuning@.take(1),
                ptr,
                CallValue::Ctrl { cmd: 41, larg: 1, parg: None },
                Check::Any,
            )
            &&& is_only(
                tuning@.skip(1),
                ptr,
                CallValue::Ctrl { cmd: 33, larg: 16, parg: None },
                Check::Any,
            )
        },
        old(builder).backend() == TlsBackend::BoringSsl ==> {
            &&& resumption@[0].call@ == (CallValue::SetSessionCacheMode { mode: 1 })
            &&& tuning@.len() == 0
        },
{
    law_calls_of_the_setters(ptr, 0, X509Store(0));
    assert(steps_of(resumption@).len() == resumption@.len());
    assert(steps_of(resumption@)[0] == resumption@[0]@);
    assert(steps_of(resumption@)[1] == resumption@[1]@);
    assert(steps_of(tuning@).len() == tuning@.len());
    if old(builder).backend() == TlsBackend::OpenSsl {
        assert(steps_of(tuning@)[0] == tuning@[0]@);
        assert(steps_of(tuning@)[1] == tuning@[1]@);
    }
}

} // verus!
