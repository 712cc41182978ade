use super::document_model::{document_contents, NodeModel};
use kdl::KdlDocument;
use vstd::prelude::*;
use vstd::utf8::{
    decode_utf8, decode_utf8_encode_utf8, encode_utf8, is_continuation_byte, valid_utf8,
};

verus! {

/// `kdl::KdlDocument`, a parsed document. Verus does not look into it.
#[verifier::external_type_specification]
#[verifier::external_body]
pub struct ExKdlDocument(kdl::KdlDocument);

/// A configuration file that was read.
pub struct KdlAsset(pub KdlDocument);

/// Reads configuration files.
#[derive(Default)]
pub struct KdlLoader;

/// Why a configuration file could not be read.
#[derive(Clone, Copy, Debug, PartialEq, Eq, Structural)]
pub enum KdlLoaderError {
    /// The file is not text.
    FailedToReadText,
    /// The file's bytes could not be had.
    ReaderFailure,
    /// The text is no document.
    InvalidKdlDocument,
}

/// The nodes of the document that the `kdl` parser reads from a text, or
/// nothing where the parser turns the text down.
pub uninterp spec fn parsed(text: Seq<char>) -> Option<Seq<NodeModel>>;

/// Whether the text is a document by the rules of the `kdl` parser.
pub open spec fn is_kdl(text: Seq<char>) -> bool {
    parsed(text) is Some
}

/// What the document holds, where there is one.
pub open spec fn contents_option(document: Option<KdlDocument>) -> Option<Seq<NodeModel>> {
    match document {
        Some(document) => Some(document_contents(document)),
        None => None,
    }
}

/// The length of the reserved word that the bytes spell at the given place:
/// four for `true` and for `null`, five for `false`, and zero where none of
/// them stands there.
pub open spec fn reserved_len(bytes: Seq<u8>, at: int) -> int {
    if at + 4 <= bytes.len() && bytes[at] == 0x74 && bytes[at + 1] == 0x72 && bytes[at + 2] == 0x75
        && bytes[at + 3] == 0x65 {
        4
    } else if at + 4 <= bytes.len() && bytes[at] == 0x6e && bytes[at + 1] == 0x75 && bytes[at + 2]
        == 0x6c && bytes[at + 3] == 0x6c {
        4
    } else if at + 5 <= bytes.len() && bytes[at] == 0x66 && bytes[at + 1] == 0x61 && bytes[at + 2]
        == 0x6c && bytes[at + 3] == 0x73 && bytes[at + 4] == 0x65 {
        5
    } else {
        0
    }
}

/// Whether the byte is a character of its own that goes on an identifier:
/// a printable character other than the space and the fourteen marks
/// `\ / ( ) { } < > ; [ ] = , "`.
pub open spec fn goes_on(byte: u8) -> bool {
    0x21 <= byte <= 0x7f && byte != 0x5c && byte != 0x2f && byte != 0x28 && byte != 0x29 && byte
        != 0x7b && byte != 0x7d && byte != 0x3c && byte != 0x3e && byte != 0x3b && byte != 0x5b
        && byte != 0x5d && byte != 0x3d && byte != 0x2c && byte != 0x22
}

/// Whether the parser's report of a reserved word in a type annotation
/// cannot be made at the given place: a `(` stands there, a reserved word
/// follows it that may be a whole identifier, and what follows the word is
/// shorter than the word or has no character that begins as far in as the
/// word is long. The parser cuts that much off what follows the word.
pub open spec fn trips_at(bytes: Seq<u8>, at: int) -> bool {
    let len = reserved_len(bytes, at + 1);
    let rest = at + 1 + len;
    &&& 0 <= at < bytes.len()
    &&& bytes[at] == 0x28
    &&& len > 0
    &&& (rest < bytes.len() ==> !goes_on(bytes[rest]))
    &&& (rest + len > bytes.len() || (rest + len < bytes.len() && is_continuation_byte(
        bytes[rest + len],
    )))
}

/// Whether the parser can be handed the text: its report of a reserved word
/// in a type annotation can be made wherever it may be due. Every `(` with a
/// reserved word behind it counts, also one in a string or in a comment,
/// where no report is due: to tell those apart is the parser's work.
pub open spec fn reportable(bytes: Seq<u8>) -> bool {
    forall|at: int| !trips_at(bytes, at)
}

/// Calls `String::from_utf8`: there is a string for the bytes where they are
/// well-formed UTF-8, and it is the text that they encode.
#[verifier::external_body]
fn text_of(bytes: Vec<u8>) -> (text: Option<String>)
    ensures
        text is Some == valid_utf8(bytes@),
        text is Some ==> text.unwrap()@ == decode_utf8(bytes@),
{
    String::from_utf8(bytes).ok()
}

/// Parses a document with `KdlDocument::from_str`. What the parser reads
/// depends on the text alone. The parser answers a reserved word in a type
/// annotation with an error, and for its report cuts as many bytes as the
/// word is long off what follows the word; it panics where it cannot. Such
/// texts are left out.
#[verifier::external_body]
fn parse_document(text: &str) -> (document: Option<KdlDocument>)
    requires
        reportable(encode_utf8(text@)),
    ensures
        contents_option(document) == parsed(text@),
{
    text.parse::<KdlDocument>().ok()
}

/// The length of the reserved word at the given place.
fn reserved_word(bytes: &[u8], at: usize) -> (len: usize)
    ensures
        len == reserved_len(bytes@, at as int),
{
    let n = bytes.len();
    if at > n || n - at < 4 {
        0
    } else if bytes[at] == 0x74 && bytes[at + 1] == 0x72 && bytes[at + 2] == 0x75 && bytes[at + 3]
        == 0x65 {
        4
    } else if bytes[at] == 0x6e && bytes[at + 1] == 0x75 && bytes[at + 2] == 0x6c && bytes[at + 3]
        == 0x6c {
        4
    } else if n - at >= 5 && bytes[at] == 0x66 && bytes[at + 1] == 0x61 && bytes[at + 2] == 0x6c
        && bytes[at + 3] == 0x73 && bytes[at + 4] == 0x65 {
        5
    } else {
        0
    }
}

/// Whether the byte goes on an identifier.
fn continues_identifier(byte: u8) -> (on: bool)
    ensures
        on == goes_on(byte),
{
    0x21 <= byte && byte <= 0x7f && byte != 0x5c && byte != 0x2f && byte != 0x28 && byte != 0x29
        && byte != 0x7b && byte != 0x7d && byte != 0x3c && byte != 0x3e && byte != 0x3b && byte
        != 0x5b && byte != 0x5d && byte != 0x3d && byte != 0x2c && byte != 0x22
}

/// Whether the parser's report cannot be made at the given place.
fn trips(bytes: &[u8], at: usize) -> (tripped: bool)
    requires
        at < bytes@.len(),
    ensures
        tripped == trips_at(bytes@, at as int),
{
    if bytes[at] != 0x28 {
        return false;
    }
    let len = reserved_word(bytes, at + 1);
    if len == 0 {
        return false;
    }
    let n = bytes.len();
    let rest = at + 1 + len;
    if rest < n && continues_identifier(bytes[rest]) {
        return false;
    }
    if n - rest < len {
        return true;
    }
    n - rest > len && bytes[rest + len] >= 0x80 && bytes[rest + len] <= 0xbf
}

/// Whether the parser can be handed the text.
pub fn can_be_parsed(text: &str) -> (safe: bool)
    ensures
        safe == reportable(encode_utf8(text@)),
{
    let bytes = text.as_bytes();
    let mut at: usize = 0;
    while at < bytes.len()
        invariant
            at <= bytes@.len(),
            bytes@ == encode_utf8(text@),
            forall|k: int| 0 <= k < at ==> !trips_at(bytes@, k),
        decreases bytes@.len() - at,
    {
        if trips(bytes, at) {
            return false;
        }
        at = at + 1;
    }
    true
}

/// What reading a file comes to, given the file's bytes where they could be
/// had: the nodes of the document, or why there is none. Bytes that are no
/// text are `FailedToReadText`. A text that the parser turns down, or that
/// it cannot be handed, is `InvalidKdlDocument`.
pub open spec fn load_outcome(bytes: Option<Vec<u8>>) -> Result<Seq<NodeModel>, KdlLoaderError> {
    match bytes {
        None => Err(KdlLoaderError::ReaderFailure),
        Some(bytes) => {
            if !valid_utf8(bytes@) {
                Err(KdlLoaderError::FailedToReadText)
            } else if !reportable(bytes@) {
                Err(KdlLoaderError::InvalidKdlDocument)
            } else {
                match parsed(decode_utf8(bytes@)) {
                    Some(nodes) => Ok(nodes),
                    None => Err(KdlLoaderError::InvalidKdlDocument),
                }
            }
        },
    }
}

/// What the asset holds, or the error.
pub open spec fn asset_outcome(res: Result<KdlAsset, KdlLoaderError>) -> Result<
    Seq<NodeModel>,
    KdlLoaderError,
> {
    match res {
        Ok(asset) => Ok(document_contents(asset.0)),
        Err(error) => Err(error),
    }
}

impl KdlLoader {
    /// The endings of the names of the files that this loader reads.
    pub fn extensions(&self) -> (endings: Vec<&'static str>)
        ensures
            endings@.len() == 1,
            endings@[0]@ == "kdl"@,
    {
        let mut endings: Vec<&'static str> = Vec::new();
        endings.push("kdl");
        endings
    }

    /// Turns the bytes of a file into a document. `bytes` is `None` where
    /// reading the file failed.
    pub fn load(&self, bytes: Option<Vec<u8>>) -> (res: Result<KdlAsset, KdlLoaderError>)
        ensures
            asset_outcome(res) == load_outcome(bytes),
    {
        match bytes {
            None => Err(KdlLoaderError::ReaderFailure),
            Some(bytes) => {
                proof {
                    if valid_utf8(bytes@) {
                        decode_utf8_encode_utf8(bytes@);
                    }
                }
                match text_of(bytes) {
                    None => Err(KdlLoaderError::FailedToReadText),
                    Some(text) => {
                        if !can_be_parsed(text.as_str()) {
                            Err(KdlLoaderError::InvalidKdlDocument)
                        } else {
                            match parse_document(text.as_str()) {
                                None => Err(KdlLoaderError::InvalidKdlDocument),
                                Some(document) => Ok(KdlAsset(document)),
                            }
                        }
                    },
                }
            },
        }
    }
}

} // verus!
