//! Decisions of the analysis HTTP service: the bind address, the cache key
//! of an uploaded contract, the handling of an analysis request, and the
//! replies to failed requests.
use vstd::prelude::*;
use vstd::utf8::{decode_utf8, encode_utf8, valid_utf8};
use crate::text::{
    decimal, hex_lower, is_hex_digit, lemma_hex_lower_shape, push_decimal, same_text, to_hex_lower,
};

verus! {

/// Where the service listens.
pub struct ServeArgs {
    port: u16,
    bind: String,
}

impl ServeArgs {
    /// Arguments for listening on `bind` at `port`.
    pub fn new(port: u16, bind: String) -> (a: Self)
        ensures
            a.port_value() == port,
            a.bind_text() == bind@,
    {
        ServeArgs { port, bind }
    }

    /// The port to listen on.
    pub closed spec fn port_value(&self) -> u16 {
        self.port
    }

    /// The address to bind to.
    pub closed spec fn bind_text(&self) -> Seq<char> {
        self.bind@
    }

    /// The port to listen on.
    pub fn port(&self) -> (p: u16)
        ensures
            p == self.port_value(),
    {
        self.port
    }

    /// The address to bind to.
    pub fn bind(&self) -> (b: &String)
        ensures
            b@ == self.bind_text(),
    {
        &self.bind
    }

    /// The socket address text `bind:port`.
    pub fn socket_address_text(&self) -> (s: String)
        ensures
            s@ == self.bind_text() + ":"@ + decimal(self.port_value() as nat),
    {
        let mut s = self.bind.clone();
        s.append(":");
        push_decimal(&mut s, self.port as usize);
        s
    }
}

/// The MD5 digest of `data` (`md5::compute`).
pub uninterp spec fn md5_digest(data: Seq<u8>) -> Seq<u8>;

/// Computes the MD5 digest of `data` with `md5::compute`: the 16 bytes of
/// the digest.
#[verifier::external_body]
fn md5_compute(data: &[u8]) -> (d: Vec<u8>)
    ensures
        d@ == md5_digest(data@),
        d@.len() == 16,
{
    md5::compute(data).0.to_vec()
}

/// Decodes `bytes` as UTF-8 (`String::from_utf8`): `Some` exactly when the
/// bytes are valid UTF-8.
#[verifier::external_body]
fn utf8_string(bytes: Vec<u8>) -> (r: Option<String>)
    ensures
        r is Some == valid_utf8(bytes@),
        r matches Some(s) ==> s@ == decode_utf8(bytes@),
{
    String::from_utf8(bytes).ok()
}

/// The cache key of a contract source: the lower-case hexadecimal MD5
/// digest of its UTF-8 bytes.
pub open spec fn cache_key_text(source: Seq<char>) -> Seq<char> {
    hex_lower(md5_digest(encode_utf8(source)))
}

/// The cache key of a contract source: 32 lower-case hexadecimal digits.
pub fn cache_key(source: &str) -> (k: String)
    ensures
        k@ == cache_key_text(source@),
        k@.len() == 32,
        forall|i: int| 0 <= i < k@.len() ==> is_hex_digit(#[trigger] k@[i]),
{
    let digest = md5_compute(source.as_bytes());
    proof {
        lemma_hex_lower_shape(digest@);
    }
    to_hex_lower(digest.as_slice())
}

/// The index of the part holding the contract: the first part named
/// `contract`, provided every part before it was read without error;
/// `None` when an erroneous part (`None`) comes first or no part is named
/// `contract`.
pub open spec fn contract_part_from(parts: Seq<Option<String>>, from: int) -> Option<int>
    decreases parts.len() - from,
{
    if from < 0 || from >= parts.len() {
        None
    } else {
        match parts[from] {
            None => None,
            Some(n) => if n@ == "contract"@ {
                Some(from)
            } else {
                contract_part_from(parts, from + 1)
            },
        }
    }
}

/// The index of the part holding the contract, searching from the start.
pub open spec fn contract_part(parts: Seq<Option<String>>) -> Option<int> {
    contract_part_from(parts, 0)
}

/// Finds the part that holds the contract among the names of the parts of
/// an upload (`None` for a part that could not be read).
pub fn find_contract_part(parts: &Vec<Option<String>>) -> (r: Option<usize>)
    ensures
        match r {
            Some(i) => contract_part(parts@) == Some(i as int),
            None => contract_part(parts@) is None,
        },
{
    let mut i: usize = 0;
    while i < parts.len()
        invariant
            i <= parts@.len(),
            contract_part(parts@) == contract_part_from(parts@, i as int),
        decreases parts.len() - i,
    {
        match &parts[i] {
            None => return None,
            Some(n) => {
                if same_text(n.as_str(), "contract") {
                    return Some(i);
                }
            },
        }
        i += 1;
    }
    None
}

/// Where the handling of an analysis request stands.
pub enum AnalyzeStage {
    /// Waiting for the parts of the upload.
    AwaitingParts,
    /// Reading the part that holds the contract.
    ReadingContract,
    /// Writing the contract source to a temporary file.
    WritingTempFile { source: String },
    /// Looking up the cached result under `key`.
    CheckingCache { key: String },
    /// Analyzing the temporary file; the result goes under `key`.
    Analyzing { key: String },
    /// Done: a reply has been chosen.
    Finished,
}

/// What the outside world reports back.
pub enum AnalyzeEvent {
    /// The parts of the upload, by name (`None` for a part that failed).
    PartsCollected { parts: Vec<Option<String>> },
    /// The bytes of the contract part (`None` when it had none or failed).
    ContractRead { bytes: Option<Vec<u8>> },
    /// Whether the temporary file was written.
    TempFileWritten { ok: bool },
    /// Whether the cache held a result.
    CacheChecked { hit: bool },
    /// Whether the analysis succeeded.
    AnalysisDone { ok: bool },
}

/// What the service does next.
pub enum AnalyzeAction {
    /// Read the data of part `index`.
    ReadPart { index: usize },
    /// Write `source` to the temporary file.
    WriteTempFile { source: String },
    /// Look up the cache under `key`.
    LookupCache { key: String },
    /// Reply with the cached result.
    ReplyCached,
    /// Analyze the temporary file.
    AnalyzeTempFile,
    /// Store the analysis result under `key` and reply with it.
    StoreAndReply { key: String },
    /// Reject the request.
    Reject,
}

/// The transition of the request handling from `stage` on `event` to
/// `next`, doing `action`.
pub open spec fn analyze_transition(
    stage: AnalyzeStage,
    event: AnalyzeEvent,
    next: AnalyzeStage,
    action: AnalyzeAction,
) -> bool {
    match (stage, event) {
        (AnalyzeStage::AwaitingParts, AnalyzeEvent::PartsCollected { parts }) => match contract_part(
            parts@,
        ) {
            Some(i) => next == AnalyzeStage::ReadingContract && action == (AnalyzeAction::ReadPart {
                index: i as usize,
            }),
            None => next == AnalyzeStage::Finished && action == AnalyzeAction::Reject,
        },
        (AnalyzeStage::ReadingContract, AnalyzeEvent::ContractRead { bytes }) => match bytes {
            Some(b) => if valid_utf8(b@) {
                &&& next matches AnalyzeStage::WritingTempFile { source } && source@ == decode_utf8(
                    b@,
                )
                &&& action matches AnalyzeAction::WriteTempFile { source } && source@
                    == decode_utf8(b@)
            } else {
                next == AnalyzeStage::Finished && action == AnalyzeAction::Reject
            },
            None => next == AnalyzeStage::Finished && action == AnalyzeAction::Reject,
        },
        (AnalyzeStage::WritingTempFile { source }, AnalyzeEvent::TempFileWritten { ok }) => if ok {
            &&& next matches AnalyzeStage::CheckingCache { key } && key@ == cache_key_text(source@)
            &&& action matches AnalyzeAction::LookupCache { key } && key@ == cache_key_text(
                source@,
            )
        } else {
            next == AnalyzeStage::Finished && action == AnalyzeAction::Reject
        },
        (AnalyzeStage::CheckingCache { key }, AnalyzeEvent::CacheChecked { hit }) => if hit {
            next == AnalyzeStage::Finished && action == AnalyzeAction::ReplyCached
        } else {
            next == (AnalyzeStage::Analyzing { key }) && action == AnalyzeAction::AnalyzeTempFile
        },
        (AnalyzeStage::Analyzing { key }, AnalyzeEvent::AnalysisDone { ok }) => if ok {
            next == AnalyzeStage::Finished && action == (AnalyzeAction::StoreAndReply { key })
        } else {
            next == AnalyzeStage::Finished && action == AnalyzeAction::Reject
        },
        _ => next == AnalyzeStage::Finished && action == AnalyzeAction::Reject,
    }
}

/// The next stage and action of the request handling.
pub fn analyze_step(stage: AnalyzeStage, event: AnalyzeEvent) -> (r: (AnalyzeStage, AnalyzeAction))
    ensures
        analyze_transition(stage, event, r.0, r.1),
{
    match (stage, event) {
        (AnalyzeStage::AwaitingParts, AnalyzeEvent::PartsCollected { parts }) => {
            match find_contract_part(&parts) {
                Some(i) => (AnalyzeStage::ReadingContract, AnalyzeAction::ReadPart { index: i }),
                None => (AnalyzeStage::Finished, AnalyzeAction::Reject),
            }
        },
        (AnalyzeStage::ReadingContract, AnalyzeEvent::ContractRead { bytes }) => {
            match bytes {
                Some(b) => match utf8_string(b) {
                    Some(source) => {
                        let copy = source.clone();
                        (
                            AnalyzeStage::WritingTempFile { source },
                            AnalyzeAction::WriteTempFile { source: copy },
                        )
                    },
                    None => (AnalyzeStage::Finished, AnalyzeAction::Reject),
                },
                None => (AnalyzeStage::Finished, AnalyzeAction::Reject),
            }
        },
        (AnalyzeStage::WritingTempFile { source }, AnalyzeEvent::TempFileWritten { ok }) => {
            if ok {
                let key = cache_key(source.as_str());
                let copy = key.clone();
                (AnalyzeStage::CheckingCache { key }, AnalyzeAction::LookupCache { key: copy })
            } else {
                (AnalyzeStage::Finished, AnalyzeAction::Reject)
            }
        },
        (AnalyzeStage::CheckingCache { key }, AnalyzeEvent::CacheChecked { hit }) => {
            if hit {
                (AnalyzeStage::Finished, AnalyzeAction::ReplyCached)
            } else {
                (AnalyzeStage::Analyzing { key }, AnalyzeAction::AnalyzeTempFile)
            }
        },
        (AnalyzeStage::Analyzing { key }, AnalyzeEvent::AnalysisDone { ok }) => {
            if ok {
                (AnalyzeStage::Finished, AnalyzeAction::StoreAndReply { key })
            } else {
                (AnalyzeStage::Finished, AnalyzeAction::Reject)
            }
        },
        _ => (AnalyzeStage::Finished, AnalyzeAction::Reject),
    }
}

/// The reply to a failed request: its HTTP status and error text.
pub struct ErrorReply {
    pub status: u16,
    pub error: String,
}

/// The reply to a rejected request: 404 `Not found` for an unknown route,
/// 500 `Internal server error` otherwise.
pub fn rejection_reply(is_not_found: bool) -> (r: ErrorReply)
    ensures
        is_not_found ==> r.status == 404 && r.error@ == "Not found"@,
        !is_not_found ==> r.status == 500 && r.error@ == "Internal server error"@,
{
    if is_not_found {
        ErrorReply { status: 404, error: String::from_str("Not found") }
    } else {
        ErrorReply { status: 500, error: String::from_str("Internal server error") }
    }
}

} // verus!
