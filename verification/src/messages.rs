//! The payloads that travel between the gateway, the words service and the
//! signing service, and the shape in which the gateway answers its callers.

use crate::text::{text_of, texts};
use vstd::prelude::*;

verus! {

/// A list of words with its optional signature, as contracts see it.
pub struct WordsView {
    pub words: Seq<Seq<char>>,
    pub timestamp: Option<u64>,
    pub signature: Option<Seq<char>>,
}

impl WordsView {
    /// Timestamp and signature come together or not at all.
    pub open spec fn paired(self) -> bool {
        self.timestamp is Some <==> self.signature is Some
    }

    /// The list carries a signature.
    pub open spec fn is_signed(self) -> bool {
        self.timestamp is Some && self.signature is Some
    }

    /// The list carries neither timestamp nor signature.
    pub open spec fn is_unsigned(self) -> bool {
        self.timestamp is None && self.signature is None
    }
}

/// A request for `count` words, signed or not.
#[derive(Clone, Copy, Debug, PartialEq, Eq, Structural)]
pub struct WordsRequest {
    pub count: u32,
    pub signed: bool,
}

/// A request to sign a list of words. The signer does not look into them.
#[derive(Debug)]
pub struct SignRequest {
    pub words: Vec<String>,
}

/// The answer of the words service and of the signing service.
#[derive(Debug)]
pub struct WordsResponse {
    pub words: Vec<String>,
    pub timestamp: Option<u64>,
    pub signature: Option<String>,
}

impl View for WordsResponse {
    type V = WordsView;

    open spec fn view(&self) -> WordsView {
        WordsView {
            words: texts(self.words@),
            timestamp: self.timestamp,
            signature: text_of(self.signature),
        }
    }
}

impl Default for WordsResponse {
    fn default() -> (r: WordsResponse)
        ensures
            r@ == (WordsView { words: Seq::empty(), timestamp: None, signature: None }),
    {
        let r = WordsResponse { words: Vec::new(), timestamp: None, signature: None };
        assert(r@.words =~= Seq::empty());
        r
    }
}

impl WordsResponse {
    /// An answer without signature.
    pub fn unsigned(words: Vec<String>) -> (r: WordsResponse)
        ensures
            r.words == words,
            r@ == (WordsView { words: texts(words@), timestamp: None, signature: None }),
            r@.is_unsigned(),
    {
        WordsResponse { words, timestamp: None, signature: None }
    }

    /// An answer signed at `timestamp`.
    pub fn signed(words: Vec<String>, timestamp: u64, signature: String) -> (r: WordsResponse)
        ensures
            r.words == words,
            r@ == (WordsView {
                words: texts(words@),
                timestamp: Some(timestamp),
                signature: Some(signature@),
            }),
            r@.is_signed(),
    {
        WordsResponse { words, timestamp: Some(timestamp), signature: Some(signature) }
    }
}

/// What the gateway answers: the words, and timestamp and signature where
/// the list was signed.
#[derive(Debug)]
pub struct Words {
    pub words: Vec<String>,
    pub timestamp: Option<u64>,
    pub signature: Option<String>,
}

impl View for Words {
    type V = WordsView;

    open spec fn view(&self) -> WordsView {
        WordsView {
            words: texts(self.words@),
            timestamp: self.timestamp,
            signature: text_of(self.signature),
        }
    }
}

impl Words {
    /// The gateway's answer for a service's answer: the same words in the
    /// same order, the same timestamp, the same signature.
    pub fn from(proto: WordsResponse) -> (w: Words)
        ensures
            w@ == proto@,
            w.words == proto.words,
            w.signature == proto.signature,
    {
        Words {
            words: proto.words,
            timestamp: match proto.timestamp {
                Some(time) => Some(time),
                _ => None,
            },
            signature: match proto.signature {
                Some(signature) => Some(signature),
                _ => None,
            },
        }
    }
}

/// Two answers are equal when they hold the same words in the same order,
/// the same timestamp and the same signature.
impl PartialEq for Words {
    fn eq(&self, other: &Self) -> (r: bool) {
        if self.words.len() != other.words.len() {
            assert(texts(self.words@).len() != texts(other.words@).len());
            return false;
        }
        let mut i: usize = 0;
        while i < self.words.len()
            invariant
                i <= self.words.len(),
                self.words.len() == other.words.len(),
                forall|j: int| 0 <= j < i ==> (#[trigger] self.words@[j])@ == other.words@[j]@,
            decreases self.words.len() - i,
        {
            if !(self.words[i] == other.words[i]) {
                assert(texts(self.words@)[i as int] != texts(other.words@)[i as int]);
                return false;
            }
            i += 1;
        }
        assert(texts(self.words@) =~= texts(other.words@));
        let same_timestamp = match (self.timestamp, other.timestamp) {
            (Some(a), Some(b)) => a == b,
            (None, None) => true,
            _ => false,
        };
        let same_signature = match (&self.signature, &other.signature) {
            (Some(a), Some(b)) => *a == *b,
            (None, None) => true,
            _ => false,
        };
        same_timestamp && same_signature
    }
}

impl vstd::std_specs::cmp::PartialEqSpecImpl for Words {
    open spec fn obeys_eq_spec() -> bool {
        true
    }

    open spec fn eq_spec(&self, other: &Self) -> bool {
        &&& texts(self.words@) == texts(other.words@)
        &&& self.timestamp == other.timestamp
        &&& text_of(self.signature) == text_of(other.signature)
    }
}

} // verus!
