use vstd::prelude::*;
use vstd::string::StringExecFns;

use crate::errors::AppError;

verus! {

/// Number of words drawn for a generated passphrase.
pub const PASSWORD_LEN: usize = 10;

/// The immutable word list that passphrases are drawn from. Built once by
/// the caller from its embedded table and passed by reference; never
/// mutated afterwards.
pub struct WordList {
    words: Vec<String>,
}

impl View for WordList {
    type V = Seq<Seq<char>>;

    closed spec fn view(&self) -> Seq<Seq<char>> {
        self.words.deep_view()
    }
}

impl WordList {
    /// Accepts any non-empty table of words; an empty one cannot yield a
    /// passphrase and is rejected up front.
    pub fn new(words: Vec<String>) -> (r: Result<WordList, AppError>)
        ensures
            r is Ok <==> words@.len() > 0,
            r matches Ok(l) ==> l@ == words.deep_view(),
            r matches Err(e) ==> e == AppError::ConfigurationError,
    {
        if words.len() == 0 {
            Err(AppError::ConfigurationError)
        } else {
            Ok(WordList { words })
        }
    }

    /// Number of words in the list.
    pub fn len(&self) -> (r: usize)
        ensures
            r == self@.len(),
    {
        self.words.len()
    }
}

/// The text form of a word sequence: the words in order, '-' between
/// neighbours, nothing else.
pub open spec fn joined(ws: Seq<Seq<char>>) -> Seq<char>
    decreases ws.len(),
{
    if ws.len() == 0 {
        Seq::empty()
    } else if ws.len() == 1 {
        ws[0]
    } else {
        joined(ws.drop_last()) + seq!['-'] + ws.last()
    }
}

/// A string that some sequence of `n` words, each drawn verbatim from
/// `list`, joins to.
pub open spec fn generated_phrase(list: Seq<Seq<char>>, n: nat, s: Seq<char>) -> bool {
    exists|ws: Seq<Seq<char>>|
        {
            &&& ws.len() == n
            &&& (forall|i: int| 0 <= i < ws.len() ==> list.contains(#[trigger] ws[i]))
            &&& s == joined(ws)
        }
}

/// An ordered sequence of words from the word list; its text form is the
/// words joined by '-'. Held only long enough to derive a key or be shown
/// to the caller.
pub struct Passphrase {
    pub words: Vec<String>,
}

impl View for Passphrase {
    type V = Seq<Seq<char>>;

    open spec fn view(&self) -> Seq<Seq<char>> {
        self.words.deep_view()
    }
}

impl Passphrase {
    /// The words joined by the fixed delimiter.
    pub fn text(&self) -> (r: String)
        ensures
            r@ == joined(self@),
    {
        let mut out = String::new();
        let mut i: usize = 0;
        proof {
            reveal_strlit("-");
        }
        while i < self.words.len()
            invariant
                i <= self.words@.len(),
                self@.len() == self.words@.len(),
                out@ == joined(self@.subrange(0, i as int)),
                "-"@ == seq!['-'],
            decreases self.words@.len() - i,
        {
            if i > 0 {
                out.append("-");
            }
            out.append(self.words[i].as_str());
            i = i + 1;
            proof {
                let prefix = self@.subrange(0, i as int);
                assert(prefix.drop_last() =~= self@.subrange(0, i - 1));
                assert(prefix.last() == self@[i - 1]);
                if i == 1 {
                    assert(out@ =~= joined(prefix));
                } else {
                    assert(out@ =~= joined(prefix.drop_last()) + seq!['-'] + prefix.last());
                }
            }
        }
        proof {
            assert(self@.subrange(0, self@.len() as int) =~= self@);
        }
        out
    }
}

/// Relies on rand::Rng::gen_range over rand::thread_rng, a cryptographically
/// secure generator: it panics only on an empty range, and returns a value
/// inside the given range. Nothing else can be promised of a random draw.
#[verifier::external_body]
fn random_index(bound: usize) -> (r: usize)
    requires
        bound > 0,
    ensures
        r < bound,
{
    rand::Rng::gen_range(&mut rand::thread_rng(), 0..bound)
}

/// Draws `word_count` independent uniform indices into the word list and
/// collects the words they name. Fails only when the list is empty, so no
/// index range exists.
pub fn generate_passphrase(list: &WordList, word_count: usize) -> (r: Result<Passphrase, AppError>)
    requires
        word_count >= 1,
    ensures
        r is Ok <==> list@.len() > 0,
        r matches Ok(p) ==> {
            &&& p@.len() == word_count
            &&& forall|i: int| 0 <= i < p@.len() ==> list@.contains(#[trigger] p@[i])
        },
        r matches Err(e) ==> e == AppError::ConfigurationError,
{
    let n = list.len();
    if n == 0 {
        return Err(AppError::ConfigurationError);
    }
    let mut words: Vec<String> = Vec::new();
    let mut i: usize = 0;
    while i < word_count
        invariant
            i <= word_count,
            n == list@.len(),
            n > 0,
            words.deep_view().len() == i,
            forall|j: int| 0 <= j < i ==> list@.contains(#[trigger] words.deep_view()[j]),
        decreases word_count - i,
    {
        let ghost prev = words.deep_view();
        let idx = random_index(n);
        let w = list.words[idx].clone();
        words.push(w);
        proof {
            assert forall|j: int| 0 <= j <= i implies list@.contains(
                #[trigger] words.deep_view()[j],
            ) by {
                if j < i {
                    assert(words.deep_view()[j] == prev[j]);
                } else {
                    assert(words.deep_view()[j] == list.words@[idx as int]@);
                    assert(list@[idx as int] == list.words@[idx as int]@);
                }
            }
        }
        i = i + 1;
    }
    Ok(Passphrase { words })
}

} // verus!
