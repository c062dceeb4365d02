//! The reference text of a session: a finite corpus, padded with one space
//! and repeated without end, of which any prefix can be asked for.

use vstd::prelude::*;

use rand::rngs::StdRng;

use crate::corpus::{build_corpus, is_corpus_of, CorpusOptions};
use crate::helpers::{chars_of, push_char};

verus! {

/// The corpus followed by the single space that separates its repetitions.
pub open spec fn padded(corpus: Seq<char>) -> Seq<char> {
    corpus.push(' ')
}

/// The character at position `i` of the endless repetition of the padded corpus.
pub open spec fn repeated_char(corpus: Seq<char>, i: nat) -> char {
    padded(corpus)[(i % padded(corpus).len()) as int]
}

/// The first `n` characters of the endless repetition of the padded corpus.
pub open spec fn repeated_text(corpus: Seq<char>, n: nat) -> Seq<char> {
    Seq::new(n, |i: int| repeated_char(corpus, i as nat))
}

/// A source of reference text: a logically endless sequence of characters of
/// which any prefix can be requested.
pub trait ExpectedInputInterface {
    /// The character at position `i` of the text.
    spec fn char_at(&self, i: nat) -> char;

    /// The first `len` characters of the text.
    fn get_string(&self, len: usize) -> (r: String)
        ensures
            r@.len() == len,
            forall|i: nat| i < len ==> r@[i as int] == #[trigger] self.char_at(i),
    ;
}

/// The first `n` characters of the text of `source`.
pub open spec fn text_prefix<E: ExpectedInputInterface>(source: &E, n: nat) -> Seq<char> {
    Seq::new(n, |i: int| source.char_at(i as nat))
}

/// Why a reference text could not be built.
#[derive(Clone, Copy, Debug, PartialEq, Eq, Structural)]
pub enum ConstructionError {
    /// The dictionary could not be read.
    DictionaryUnavailable,
    /// The dictionary gave no word to type.
    EmptyCorpus,
}

/// The reference text built once per session from a corpus.
pub struct ExpectedInput {
    /// The corpus followed by one space.
    padded: Vec<char>,
}

impl View for ExpectedInput {
    type V = Seq<char>;

    /// The corpus, without the separating space.
    closed spec fn view(&self) -> Seq<char> {
        self.padded@.drop_last()
    }
}

impl ExpectedInput {
    #[verifier::type_invariant]
    spec fn padded_with_space(&self) -> bool {
        &&& self.padded@.len() >= 1
        &&& self.padded@.last() == ' '
    }

    /// Builds the reference text from a dictionary with one word per line,
    /// perturbed and shuffled as `options` and `rng` draw it. Fails when the
    /// resulting corpus is empty.
    pub fn new(dictionary: &str, options: &CorpusOptions, rng: &mut StdRng) -> (r: Result<
        ExpectedInput,
        ConstructionError,
    >)
        requires
            options.valid(),
        ensures
            match r {
                Ok(e) => e@.len() > 0 && is_corpus_of(e@, dictionary@, *options),
                Err(err) => err == ConstructionError::EmptyCorpus && is_corpus_of(
                    Seq::empty(),
                    dictionary@,
                    *options,
                ),
            },
    {
        let mut chars = build_corpus(dictionary, options, rng);
        if chars.len() == 0 {
            assert(chars@ =~= Seq::<char>::empty());
            return Err(ConstructionError::EmptyCorpus);
        }
        let ghost corpus = chars@;
        chars.push(' ');
        let r = ExpectedInput { padded: chars };
        assert(r@ =~= corpus);
        Ok(r)
    }

    /// A reference text that repeats `corpus` exactly as given.
    pub fn from_corpus(corpus: &str) -> (r: ExpectedInput)
        ensures
            r@ == corpus@,
    {
        let mut chars = chars_of(corpus);
        chars.push(' ');
        let r = ExpectedInput { padded: chars };
        assert(r@ =~= corpus@);
        r
    }

    /// The corpus as a `String`.
    pub fn corpus(&self) -> (r: String)
        ensures
            r@ == self@,
    {
        proof {
            use_type_invariant(self);
            assert(self.padded@ =~= padded(self@));
        }
        let mut s = String::new();
        let n = self.padded.len() - 1;
        for i in 0..n
            invariant
                n == self@.len(),
                self.padded@ == padded(self@),
                s@ == self@.subrange(0, i as int),
        {
            push_char(&mut s, self.padded[i]);
            assert(s@ =~= self@.subrange(0, i + 1));
        }
        assert(self@.subrange(0, n as int) =~= self@);
        s
    }
}

impl ExpectedInputInterface for ExpectedInput {
    open spec fn char_at(&self, i: nat) -> char {
        repeated_char(self@, i)
    }

    /// Repeats the padded corpus as often as needed and cuts it after `len`
    /// characters.
    fn get_string(&self, len: usize) -> (r: String)
        ensures
            r@ == repeated_text(self@, len as nat),
    {
        proof {
            use_type_invariant(self);
            assert(self.padded@ =~= padded(self@));
        }
        let period = self.padded.len();
        let mut s = String::new();
        for i in 0..len
            invariant
                period == padded(self@).len(),
                self.padded@ == padded(self@),
                s@ == repeated_text(self@, i as nat),
        {
            push_char(&mut s, self.padded[i % period]);
            assert(s@ =~= repeated_text(self@, (i + 1) as nat));
        }
        s
    }
}

/// A shorter request yields a prefix of a longer one.
pub proof fn lemma_text_prefix(e: &ExpectedInput, n: nat, m: nat)
    requires
        n <= m,
    ensures
        repeated_text(e@, n).is_prefix_of(repeated_text(e@, m)),
{
    assert(repeated_text(e@, n) =~= repeated_text(e@, m).subrange(0, n as int));
}

} // verus!
