use vstd::prelude::*;
use vstd::string::StringExecFns;

verus! {

/// One datum fed to the structural hash accumulator.
#[derive(Clone, PartialEq, Eq, Debug)]
pub enum HashToken {
    Word(i64),
    Label(String),
}

/// The mathematical value of one fed datum.
pub enum FeedItem {
    Word(int),
    Label(Seq<char>),
}

/// The mathematical value of a fed token.
pub open spec fn token_view(t: HashToken) -> FeedItem {
    match t {
        HashToken::Word(v) => FeedItem::Word(v as int),
        HashToken::Label(s) => FeedItem::Label(s@),
    }
}

/// The structural hash accumulator: it records, in order, every datum that
/// affects a widget's layout requirements, so that the runtime can compare
/// two accumulator states to detect that a subtree's layout may have
/// changed. Two widgets that would produce identical nodes feed identical
/// data; distinct data fed means distinct accumulator states.
pub struct Hasher {
    pub tokens: Vec<HashToken>,
}

impl View for Hasher {
    type V = Seq<FeedItem>;

    open spec fn view(&self) -> Seq<FeedItem> {
        self.tokens@.map_values(|t: HashToken| token_view(t))
    }
}

impl Hasher {
    /// An empty accumulator.
    pub fn new() -> (h: Hasher)
        ensures
            h@ == Seq::<FeedItem>::empty(),
    {
        let h = Hasher { tokens: Vec::new() };
        proof {
            assert(h@ =~= Seq::<FeedItem>::empty());
        }
        h
    }

    /// Feeds one machine word.
    pub fn write_i64(&mut self, v: i64)
        ensures
            final(self)@ == old(self)@.push(FeedItem::Word(v as int)),
    {
        self.tokens.push(HashToken::Word(v));
        proof {
            assert(self@ =~= old(self)@.push(FeedItem::Word(v as int)));
        }
    }

    /// Feeds one label.
    pub fn write_str(&mut self, s: &str)
        ensures
            final(self)@ == old(self)@.push(FeedItem::Label(s@)),
    {
        self.tokens.push(HashToken::Label(String::from_str(s)));
        proof {
            assert(self@ =~= old(self)@.push(FeedItem::Label(s@)));
        }
    }
}

} // verus!
