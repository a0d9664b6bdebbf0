//! Interned text: each distinct text is kept once, and named by a symbol.

use vstd::prelude::*;
use vstd::slice::slice_to_vec;
use vstd::string::StringSliceAdditionalSpecFns;
use crate::runtime::value::order::{compare_bytes, lemma_bytes_order_equal};

verus! {

/// The name of an interned text: small, and compared in one step.
#[derive(Debug, Clone, Copy, PartialEq, Eq, Structural, Hash, PartialOrd, Ord)]
pub struct Symbol {
    /// The number of the symbol: the place of its text in the interner.
    pub id: usize,
}

/// The number of the symbol under which an error keeps its message.
pub const MESSAGE: usize = 0;

/// The number of the symbol under which an error keeps its cause.
pub const CAUSE: usize = 1;

impl View for Symbol {
    type V = int;

    /// The number of the symbol.
    open spec fn view(&self) -> int {
        self.id as int
    }
}

impl Symbol {
    /// The symbol of the text `message`.
    pub open spec fn message_spec() -> Symbol {
        Symbol { id: MESSAGE }
    }

    /// The symbol of the text `cause`.
    pub open spec fn cause_spec() -> Symbol {
        Symbol { id: CAUSE }
    }

    /// The symbol with the given number.
    pub fn new(id: usize) -> (symbol: Symbol)
        ensures
            symbol@ == id,
    {
        Symbol { id }
    }

    /// The number of the symbol.
    pub fn id(&self) -> (id: usize)
        ensures
            id == self@,
    {
        self.id
    }

    /// The symbol of the text `message`.
    pub fn message() -> (symbol: Symbol)
        ensures
            symbol == Symbol::message_spec(),
    {
        Symbol { id: MESSAGE }
    }

    /// The symbol of the text `cause`.
    pub fn cause() -> (symbol: Symbol)
        ensures
            symbol == Symbol::cause_spec(),
    {
        Symbol { id: CAUSE }
    }
}

/// The text `message`.
pub open spec fn message_text() -> Seq<u8> {
    "message".spec_bytes()
}

/// The text `cause`.
pub open spec fn cause_text() -> Seq<u8> {
    "cause".spec_bytes()
}

/// Whether `text` stands in `texts` before `end`.
pub open spec fn known_before(texts: Seq<Seq<u8>>, text: Seq<u8>, end: int) -> bool {
    exists|i: int| 0 <= i < end && i < texts.len() && texts[i] == text
}

/// Whether no text stands twice in `texts`.
pub open spec fn distinct(texts: Seq<Seq<u8>>) -> bool {
    forall|i: int, j: int| 0 <= i < j < texts.len() ==> texts[i] != texts[j]
}

/// The table of interned texts. A symbol, once given out, names the same text
/// for as long as the interner lives.
#[derive(Debug)]
pub struct Interner {
    texts: Vec<Vec<u8>>,
}

impl View for Interner {
    type V = Seq<Seq<u8>>;

    /// The interned texts, each at the number of its symbol.
    closed spec fn view(&self) -> Seq<Seq<u8>> {
        Seq::new(self.texts@.len(), |i: int| self.texts@[i]@)
    }
}

impl Interner {
    #[verifier::type_invariant]
    spec fn distinct_texts(&self) -> bool {
        distinct(self@)
    }

    /// An interner that knows two texts from the start, `message` and
    /// `cause`, under the symbols [`Symbol::message`] and [`Symbol::cause`].
    pub fn new() -> (interner: Interner)
        ensures
            interner@ == seq![message_text(), cause_text()],
            distinct(interner@),
    {
        let message = slice_to_vec("message".as_bytes());
        let cause = slice_to_vec("cause".as_bytes());
        proof {
            lemma_texts_differ();
        }
        let mut texts: Vec<Vec<u8>> = Vec::new();
        texts.push(message);
        texts.push(cause);
        let interner = Interner { texts };
        assert(interner@ =~= seq![message_text(), cause_text()]);
        interner
    }

    /// The number of texts interned so far.
    pub fn len(&self) -> (len: usize)
        ensures
            len == self@.len(),
    {
        self.texts.len()
    }

    /// The symbol of `text`, if it has been interned.
    pub fn get(&self, text: &[u8]) -> (found: Option<Symbol>)
        ensures
            match found {
                Some(symbol) => 0 <= symbol@ < self@.len() && self@[symbol@] == text@,
                None => !known_before(self@, text@, self@.len() as int),
            },
            distinct(self@),
    {
        proof {
            use_type_invariant(self);
        }
        let mut at: usize = 0;
        while at < self.texts.len()
            invariant
                at <= self.texts.len(),
                !known_before(self@, text@, at as int),
                distinct(self@),
            decreases self.texts.len() - at,
        {
            proof {
                lemma_bytes_order_equal(self@[at as int], text@);
            }
            if compare_bytes(self.texts[at].as_slice(), text).is_equal() {
                return Some(Symbol { id: at });
            }
            at = at + 1;
        }
        None
    }

    /// The symbol of `text`: the one it has, or a new one, the next number
    /// that is free. Symbols given out before keep their texts.
    pub fn get_or_intern(&mut self, text: &[u8]) -> (symbol: Symbol)
        ensures
            0 <= symbol@ < final(self)@.len(),
            final(self)@[symbol@] == text@,
            final(self)@ == (if known_before(old(self)@, text@, old(self)@.len() as int) {
                old(self)@
            } else {
                old(self)@.push(text@)
            }),
            distinct(final(self)@),
    {
        proof {
            use_type_invariant(&*self);
        }
        match self.get(text) {
            Some(symbol) => symbol,
            None => {
                let id = self.texts.len();
                let ghost before = self@;
                let mut texts: Vec<Vec<u8>> = Vec::new();
                std::mem::swap(&mut texts, &mut self.texts);
                texts.push(slice_to_vec(text));
                assert(Seq::new(texts@.len(), |i: int| texts@[i]@) =~= before.push(text@));
                self.texts = texts;
                Symbol { id }
            },
        }
    }

    /// The text that `symbol` names, if this interner gave it out.
    pub fn resolve(&self, symbol: Symbol) -> (text: Option<&[u8]>)
        ensures
            match text {
                Some(bytes) => 0 <= symbol@ < self@.len() && bytes@ == self@[symbol@],
                None => symbol@ >= self@.len(),
            },
    {
        if symbol.id < self.texts.len() {
            Some(self.texts[symbol.id].as_slice())
        } else {
            None
        }
    }
}

/// The two texts that every interner starts with are two.
proof fn lemma_texts_differ()
    ensures
        message_text() != cause_text(),
{
    reveal_strlit("message");
    reveal_strlit("cause");
    assert(vstd::string::is_ascii("message"));
    assert(vstd::string::is_ascii("cause"));
    vstd::string::is_ascii_spec_bytes("message");
    vstd::string::is_ascii_spec_bytes("cause");
    assert(message_text().len() == 7);
    assert(cause_text().len() == 5);
}

} // verus!
