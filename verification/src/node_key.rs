//! The node key configuration and its evaluation into a keypair.
//!
//! A `NodeKeyConfig` describes where the node's secret key comes from:
//! given directly, read from (and lazily created at) a file, or freshly
//! generated. Evaluation is split into pure steps; the caller performs
//! the filesystem reads and writes between them and reports their
//! outcomes, so that every decision of the get-or-create protocol is
//! verified here while no I/O happens in this crate.

use vstd::prelude::*;
use vstd::string::*;

use crate::error::Error;
use crate::hex::{hex_decode, hex_decode_seq, is_hex_seq, hex_encode_seq, lemma_hex_round_trip};
use crate::identity::{Ed25519SecretKey, Keypair, scrub_secret_buffer};

verus! {

/// Role of the local node.
#[derive(Debug, Clone)]
pub enum Role {
    /// Full node.
    Full,
    /// Light node.
    Light,
}

/// The options for obtaining a secret key `K`.
///
/// The variant is immutable once constructed; evaluation never mutates
/// the value, it only reads or writes the filesystem path it names.
/// There is deliberately no `Debug` on this type: a rendering must
/// never expose the key bytes of `Input` (see [`Secret::describe`]).
#[derive(Clone)]
pub enum Secret<K> {
    /// Use the given secret key `K`.
    Input(K),
    /// Read the secret key from a file. If the file does not exist,
    /// it is created with a newly generated secret key `K`, written
    /// in its raw unencoded form.
    File(String),
    /// Always generate a new secret key `K`.
    New,
}

/// The options for obtaining an Ed25519 secret key.
pub type Ed25519Secret = Secret<Ed25519SecretKey>;

impl<K> Secret<K> {
    /// A rendering safe for logs and debug traces: only the variant
    /// tag, and for `File` the path — never any key bytes.
    pub fn describe(&self) -> (r: String)
        ensures
            match self {
                Secret::Input(_) => r@ == "Secret::Input"@,
                Secret::File(p) => r@ == "Secret::File("@ + p@ + ")"@,
                Secret::New => r@ == "Secret::New"@,
            },
    {
        match self {
            Secret::Input(_) => String::from_str("Secret::Input"),
            Secret::File(p) => String::from_str("Secret::File(").concat(p.as_str()).concat(")"),
            Secret::New => String::from_str("Secret::New"),
        }
    }
}

/// The configuration of a node's secret key, describing the type of
/// key and how it is obtained. A node's identity keypair is the result
/// of the evaluation of the node key configuration.
#[derive(Clone)]
pub enum NodeKeyConfig {
    /// An Ed25519 secret key configuration.
    Ed25519(Secret<Ed25519SecretKey>),
}

impl Default for NodeKeyConfig {
    /// By default a fresh Ed25519 key is generated on every evaluation.
    fn default() -> (r: NodeKeyConfig)
        ensures
            r == NodeKeyConfig::Ed25519(Secret::<Ed25519SecretKey>::New),
    {
        NodeKeyConfig::Ed25519(Secret::New)
    }
}

/// What the secret file's bytes denote: the hex-decoded secret when
/// the content is exactly 64 hexadecimal digits, the content itself
/// when it is exactly 32 raw bytes, and nothing otherwise.
pub open spec fn spec_decode_secret(content: Seq<u8>) -> Option<Seq<u8>> {
    if content.len() == 64 && is_hex_seq(content) {
        Some(hex_decode_seq(content))
    } else if content.len() == 32 {
        Some(content)
    } else {
        None
    }
}

/// Decode the content of a secret file. Tries the 64-character hex
/// encoding first, then the raw 32-byte form; any other content is a
/// decode error — it is never silently coerced or truncated.
pub fn decode_secret(content: &Vec<u8>) -> (r: Result<Ed25519SecretKey, Error>)
    ensures
        r is Ok <==> spec_decode_secret(content@) is Some,
        r matches Ok(k) ==> Some(k@) == spec_decode_secret(content@) && k.wf(),
        r matches Err(e) ==> e matches Error::Decode(_),
{
    if content.len() == 64 {
        if let Some(decoded) = hex_decode(content.as_slice()) {
            return Ed25519SecretKey::from_bytes(decoded);
        }
    }
    if content.len() == 32 {
        Ed25519SecretKey::from_bytes(vstd::slice::slice_to_vec(content.as_slice()))
    } else {
        Err(Error::Decode(String::from_str(
            "secret file is neither a 64 character hex encoding nor 32 raw bytes",
        )))
    }
}

/// What the caller must do next after the local part of an evaluation.
pub enum Resolution {
    /// The keypair is fully resolved; no I/O is needed.
    Ready(Keypair),
    /// The secret lives at this path: read the file in full and report
    /// the outcome to [`resolve_file_read`].
    NeedFile(String),
}

/// The outcome of reading the secret file, as reported by the caller.
pub enum FileReadOutcome {
    /// The read succeeded with these bytes.
    Content(Vec<u8>),
    /// The read failed because the file does not exist. Only this
    /// failure may lead to creating the file.
    Absent,
    /// The read failed for any other reason (permission denied, not a
    /// directory, ...), described by the message. Such a failure must
    /// not be interpreted as "file absent".
    Failed(String),
}

/// The next step after the file read has been interpreted.
pub enum AfterRead {
    /// The keypair is fully resolved; no write is needed.
    Ready(Keypair),
    /// A fresh secret was generated: create the file's missing parent
    /// directories, then write [`PendingWrite::content`] to a file
    /// created exclusively (failing if the path appeared meanwhile)
    /// with owner-only permissions, and report the outcome to
    /// [`PendingWrite::finish`].
    NeedWrite(PendingWrite),
}

/// The outcome of the exclusive-create write, as reported by the caller.
pub enum WriteOutcome {
    /// Directories were created and the file was written in full.
    Written,
    /// Directory creation or the write failed, described by the
    /// message. A raced exclusive-create collision is such a failure.
    Failed(String),
}

/// A freshly generated secret waiting to be persisted: the serialized
/// raw bytes to write, the path to write them to, and the keypair that
/// will be returned once the write's outcome is known.
pub struct PendingWrite {
    path: String,
    content: Vec<u8>,
    keypair: Keypair,
}

impl PendingWrite {
    /// The path the secret file must be created at.
    pub closed spec fn spec_path(&self) -> Seq<char> {
        self.path@
    }

    /// The bytes that must be written: the raw serialized secret.
    pub closed spec fn spec_content(&self) -> Seq<u8> {
        self.content@
    }

    /// The keypair that the evaluation will return.
    pub closed spec fn spec_keypair(&self) -> Keypair {
        self.keypair
    }

    /// The serialization buffer holds exactly the raw bytes of the
    /// keypair's secret.
    pub open spec fn wf(&self) -> bool {
        self.spec_keypair().wf() && self.spec_content() == self.spec_keypair().secret_view()
    }

    /// The path the secret file must be created at.
    pub fn path(&self) -> (r: &String)
        ensures
            r@ == self.spec_path(),
    {
        &self.path
    }

    /// The bytes that must be written.
    pub fn content(&self) -> (r: &Vec<u8>)
        ensures
            r@ == self.spec_content(),
    {
        &self.content
    }

    /// Close the protocol after the write attempt. The serialization
    /// buffer is securely erased whether or not the write succeeded;
    /// on success the generated keypair is returned, on failure the
    /// write's failure surfaces as an I/O error.
    pub fn finish(self, outcome: WriteOutcome) -> (r: Result<Keypair, Error>)
        requires
            self.wf(),
        ensures
            outcome matches WriteOutcome::Written ==> r matches Ok(kp) && kp
                == self.spec_keypair(),
            outcome matches WriteOutcome::Failed(m) ==> r matches Err(Error::Io(m2)) && m2@ == m@,
    {
        let PendingWrite { path: _, mut content, keypair } = self;
        scrub_secret_buffer(&mut content);
        match outcome {
            WriteOutcome::Written => Ok(keypair),
            WriteOutcome::Failed(m) => Err(Error::Io(m)),
        }
    }
}

impl NodeKeyConfig {
    /// Structural validity: an input secret must be well-formed.
    pub open spec fn wf(&self) -> bool {
        match self {
            NodeKeyConfig::Ed25519(Secret::Input(k)) => k.wf(),
            _ => true,
        }
    }

    /// The local part of evaluating the configuration into a keypair:
    ///
    ///  * an input secret resolves to its keypair at once;
    ///  * a fresh secret is generated and resolves at once, never
    ///    touching storage;
    ///  * a file secret needs the file read first: the caller performs
    ///    the read and continues with [`resolve_file_read`].
    pub fn begin_resolve(self) -> (r: Resolution)
        requires
            self.wf(),
        ensures
            match self {
                NodeKeyConfig::Ed25519(Secret::Input(k)) => r matches Resolution::Ready(kp)
                    && kp.wf() && kp.secret_view() == k@,
                NodeKeyConfig::Ed25519(Secret::File(p)) => r matches Resolution::NeedFile(q) && q@
                    == p@,
                NodeKeyConfig::Ed25519(Secret::New) => r matches Resolution::Ready(kp) && kp.wf(),
            },
    {
        match self {
            NodeKeyConfig::Ed25519(Secret::Input(k)) => Resolution::Ready(Keypair::from_secret(k)),
            NodeKeyConfig::Ed25519(Secret::File(p)) => Resolution::NeedFile(p),
            NodeKeyConfig::Ed25519(Secret::New) => Resolution::Ready(Keypair::generate()),
        }
    }
}

/// Interpret the outcome of reading the secret file at `path`:
///
///  * content that decodes (64-character hex or 32 raw bytes) resolves
///    to its keypair; content that does not is a terminal decode error,
///    never silently replaced by a generated key;
///  * an absent file leads to generating a fresh secret, which the
///    caller must persist: the returned [`PendingWrite`] carries the
///    raw bytes to write and the keypair that the freshly generated
///    secret (not a re-read of the file) resolves to;
///  * any other read failure propagates unchanged as an I/O error.
pub fn resolve_file_read(path: String, outcome: FileReadOutcome) -> (r: Result<AfterRead, Error>)
    ensures
        match outcome {
            FileReadOutcome::Content(c) => match spec_decode_secret(c@) {
                Some(sk) => r matches Ok(AfterRead::Ready(kp)) && kp.wf() && kp.secret_view()
                    == sk,
                None => r matches Err(e) && e matches Error::Decode(_),
            },
            FileReadOutcome::Absent => r matches Ok(AfterRead::NeedWrite(pw)) && pw.wf()
                && pw.spec_path() == path@ && pw.spec_content().len() == 32,
            FileReadOutcome::Failed(m) => r matches Err(Error::Io(m2)) && m2@ == m@,
        },
{
    match outcome {
        FileReadOutcome::Content(c) => match decode_secret(&c) {
            Ok(sk) => Ok(AfterRead::Ready(Keypair::from_secret(sk))),
            Err(e) => Err(e),
        },
        FileReadOutcome::Absent => {
            let keypair = Keypair::generate();
            let content = keypair.secret().serialize();
            Ok(AfterRead::NeedWrite(PendingWrite { path, content, keypair }))
        },
        FileReadOutcome::Failed(m) => Err(Error::Io(m)),
    }
}

/// Idempotent persistence: the raw serialized form of a freshly
/// generated secret — exactly what the get-or-create protocol writes
/// to the file — decodes back to the same secret, so a later
/// evaluation against the created file resolves to the same keypair.
pub proof fn lemma_persisted_secret_round_trip(sk: Seq<u8>)
    requires
        sk.len() == 32,
    ensures
        spec_decode_secret(sk) == Some(sk),
{
}

/// Round-trip across the other supported file encoding: a secret
/// written as its 64-character hex encoding decodes back to the same
/// secret.
pub proof fn lemma_hex_file_round_trip(sk: Seq<u8>)
    requires
        sk.len() == 32,
    ensures
        spec_decode_secret(hex_encode_seq(sk)) == Some(sk),
{
    lemma_hex_round_trip(sk);
}

} // verus!
