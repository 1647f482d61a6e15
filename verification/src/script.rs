//! Kinds of locking script, told apart by the standard byte templates.

use vstd::prelude::*;

verus! {

/// The kind of a locking script.
#[derive(Clone, Copy, Debug, PartialEq, Eq, Structural)]
pub enum ScriptType {
    P2PK,
    P2PKH,
    P2SH,
    P2WPKH,
    P2WSH,
    P2TR,
    Unknown,
}

pub const LABEL_P2PK: &'static str = "Pay to Public Key (P2PK)";

pub const LABEL_P2PKH: &'static str = "Pay to Public Key Hash (P2PKH)";

pub const LABEL_P2SH: &'static str = "Pay to Script Hash (P2SH)";

pub const LABEL_P2WPKH: &'static str = "Pay to Witness Public Key Hash (P2WPKH)";

pub const LABEL_P2WSH: &'static str = "Pay to Witness Script Hash (P2WSH)";

pub const LABEL_P2TR: &'static str = "Pay to Taproot (P2TR)";

pub const LABEL_UNKNOWN: &'static str = "unknown";

/// A public key push (65 bytes uncompressed or 33 compressed) followed by
/// `OP_CHECKSIG`.
pub open spec fn is_p2pk(s: Seq<u8>) -> bool {
    ||| s.len() == 67 && s[0] == 0x41 && s[66] == 0xac
    ||| s.len() == 35 && s[0] == 0x21 && s[34] == 0xac
}

/// `OP_DUP OP_HASH160 <20 bytes> OP_EQUALVERIFY OP_CHECKSIG`.
pub open spec fn is_p2pkh(s: Seq<u8>) -> bool {
    &&& s.len() == 25
    &&& s[0] == 0x76
    &&& s[1] == 0xa9
    &&& s[2] == 0x14
    &&& s[23] == 0x88
    &&& s[24] == 0xac
}

/// `OP_HASH160 <20 bytes> OP_EQUAL`.
pub open spec fn is_p2sh(s: Seq<u8>) -> bool {
    &&& s.len() == 23
    &&& s[0] == 0xa9
    &&& s[1] == 0x14
    &&& s[22] == 0x87
}

/// Witness version 0 with a 20-byte program.
pub open spec fn is_p2wpkh(s: Seq<u8>) -> bool {
    &&& s.len() == 22
    &&& s[0] == 0x00
    &&& s[1] == 0x14
}

/// Witness version 0 with a 32-byte program.
pub open spec fn is_p2wsh(s: Seq<u8>) -> bool {
    &&& s.len() == 34
    &&& s[0] == 0x00
    &&& s[1] == 0x20
}

/// Witness version 1 with a 32-byte program.
pub open spec fn is_p2tr(s: Seq<u8>) -> bool {
    &&& s.len() == 34
    &&& s[0] == 0x51
    &&& s[1] == 0x20
}

/// The kind of a script: the first template that matches, in the order
/// P2PK, P2PKH, P2SH, P2WPKH, P2WSH, P2TR; `Unknown` if none does.
pub open spec fn script_type(s: Seq<u8>) -> ScriptType {
    if is_p2pk(s) {
        ScriptType::P2PK
    } else if is_p2pkh(s) {
        ScriptType::P2PKH
    } else if is_p2sh(s) {
        ScriptType::P2SH
    } else if is_p2wpkh(s) {
        ScriptType::P2WPKH
    } else if is_p2wsh(s) {
        ScriptType::P2WSH
    } else if is_p2tr(s) {
        ScriptType::P2TR
    } else {
        ScriptType::Unknown
    }
}

/// `bitcoin::Script::is_p2pk`: true exactly for a script of 67 bytes that
/// starts with the push of 65 bytes and ends with `OP_CHECKSIG`, or one of 35
/// bytes that starts with the push of 33 bytes and ends with `OP_CHECKSIG`.
/// The pushed key is not examined.
#[verifier::external_body]
fn outside_is_p2pk(script: &[u8]) -> (b: bool)
    ensures
        b == is_p2pk(script@),
{
    bitcoin::Script::from_bytes(script).is_p2pk()
}

/// `bitcoin::Script::is_p2pkh`: true exactly for a script of 25 bytes with
/// `OP_DUP OP_HASH160` and the push of 20 bytes in front and
/// `OP_EQUALVERIFY OP_CHECKSIG` at the end.
#[verifier::external_body]
fn outside_is_p2pkh(script: &[u8]) -> (b: bool)
    ensures
        b == is_p2pkh(script@),
{
    bitcoin::Script::from_bytes(script).is_p2pkh()
}

/// `bitcoin::Script::is_p2sh`: true exactly for a script of 23 bytes with
/// `OP_HASH160` and the push of 20 bytes in front and `OP_EQUAL` at the end.
#[verifier::external_body]
fn outside_is_p2sh(script: &[u8]) -> (b: bool)
    ensures
        b == is_p2sh(script@),
{
    bitcoin::Script::from_bytes(script).is_p2sh()
}

/// `bitcoin::Script::is_p2wpkh`: true exactly for a script of 22 bytes that
/// is the zero byte, the push of 20 bytes, and the program.
#[verifier::external_body]
fn outside_is_p2wpkh(script: &[u8]) -> (b: bool)
    ensures
        b == is_p2wpkh(script@),
{
    bitcoin::Script::from_bytes(script).is_p2wpkh()
}

/// `bitcoin::Script::is_p2wsh`: true exactly for a script of 34 bytes that
/// is the zero byte, the push of 32 bytes, and the program.
#[verifier::external_body]
fn outside_is_p2wsh(script: &[u8]) -> (b: bool)
    ensures
        b == is_p2wsh(script@),
{
    bitcoin::Script::from_bytes(script).is_p2wsh()
}

/// `bitcoin::Script::is_p2tr`: true exactly for a script of 34 bytes that
/// is `OP_1`, the push of 32 bytes, and the program.
#[verifier::external_body]
fn outside_is_p2tr(script: &[u8]) -> (b: bool)
    ensures
        b == is_p2tr(script@),
{
    bitcoin::Script::from_bytes(script).is_p2tr()
}

/// Tells the kind of a locking script.
pub fn classify(script: &[u8]) -> (kind: ScriptType)
    ensures
        kind == script_type(script@),
{
    if outside_is_p2pk(script) {
        ScriptType::P2PK
    } else if outside_is_p2pkh(script) {
        ScriptType::P2PKH
    } else if outside_is_p2sh(script) {
        ScriptType::P2SH
    } else if outside_is_p2wpkh(script) {
        ScriptType::P2WPKH
    } else if outside_is_p2wsh(script) {
        ScriptType::P2WSH
    } else if outside_is_p2tr(script) {
        ScriptType::P2TR
    } else {
        ScriptType::Unknown
    }
}

impl ScriptType {
    /// The text shown for this kind.
    pub open spec fn label_text(self) -> Seq<char> {
        match self {
            ScriptType::P2PK => LABEL_P2PK@,
            ScriptType::P2PKH => LABEL_P2PKH@,
            ScriptType::P2SH => LABEL_P2SH@,
            ScriptType::P2WPKH => LABEL_P2WPKH@,
            ScriptType::P2WSH => LABEL_P2WSH@,
            ScriptType::P2TR => LABEL_P2TR@,
            ScriptType::Unknown => LABEL_UNKNOWN@,
        }
    }

    /// The text shown for this kind.
    pub fn label(self) -> (s: &'static str)
        ensures
            s@ == self.label_text(),
    {
        match self {
            ScriptType::P2PK => LABEL_P2PK,
            ScriptType::P2PKH => LABEL_P2PKH,
            ScriptType::P2SH => LABEL_P2SH,
            ScriptType::P2WPKH => LABEL_P2WPKH,
            ScriptType::P2WSH => LABEL_P2WSH,
            ScriptType::P2TR => LABEL_P2TR,
            ScriptType::Unknown => LABEL_UNKNOWN,
        }
    }
}

/// No script matches two templates: the six templates differ in length or
/// in their first byte.
pub proof fn lemma_templates_exclusive(s: Seq<u8>)
    ensures
        is_p2pk(s) ==> !is_p2pkh(s) && !is_p2sh(s) && !is_p2wpkh(s) && !is_p2wsh(s) && !is_p2tr(s),
        is_p2pkh(s) ==> !is_p2sh(s) && !is_p2wpkh(s) && !is_p2wsh(s) && !is_p2tr(s),
        is_p2sh(s) ==> !is_p2wpkh(s) && !is_p2wsh(s) && !is_p2tr(s),
        is_p2wpkh(s) ==> !is_p2wsh(s) && !is_p2tr(s),
        is_p2wsh(s) ==> !is_p2tr(s),
{
}

/// The kind of a script is the one template that it matches, whatever the
/// order in which the templates are tried; an earlier template always wins
/// over a later one.
pub proof fn lemma_script_type_by_template(s: Seq<u8>)
    ensures
        script_type(s) == ScriptType::P2PK <==> is_p2pk(s),
        script_type(s) == ScriptType::P2PKH <==> is_p2pkh(s),
        script_type(s) == ScriptType::P2SH <==> is_p2sh(s),
        script_type(s) == ScriptType::P2WPKH <==> is_p2wpkh(s),
        script_type(s) == ScriptType::P2WSH <==> is_p2wsh(s),
        script_type(s) == ScriptType::P2TR <==> is_p2tr(s),
        script_type(s) == ScriptType::Unknown <==> !(is_p2pk(s) || is_p2pkh(s) || is_p2sh(s)
            || is_p2wpkh(s) || is_p2wsh(s) || is_p2tr(s)),
{
    lemma_templates_exclusive(s);
}

} // verus!
