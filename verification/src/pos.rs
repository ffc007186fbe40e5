//! The part-of-speech tags and their canonical text.

use vstd::hash_map::StringHashMap;
use vstd::prelude::*;

verus! {

/// A part-of-speech tag.
#[allow(non_camel_case_types)]
#[derive(Clone, Copy, PartialEq, Eq, Debug, Structural)]
pub enum POS {
    /// coordinating conjunction (and, or)
    CC,
    /// cardinal numeral
    CD,
    /// colon
    COL,
    /// comma
    COM,
    /// dollar sign
    DOL,
    /// singular determiner (this, that)
    DT,
    /// existential there
    EX,
    /// foreign word
    FW,
    /// preposition
    IN,
    /// adjective
    JJ,
    /// comparative adjective
    JJR,
    /// superlative adjective (chief, top)
    JJS,
    /// open parenthesis
    LRB,
    /// list item marker
    LS,
    /// modal auxiliary (can, should, will)
    MD,
    /// singular or mass noun
    NN,
    /// proper noun, singular
    NNP,
    /// proper noun, plural
    NNPS,
    /// plural noun
    NNS,
    /// no tag has been assigned yet
    NOT_SET,
    /// filler that aligns fixed-width input
    PADDING,
    /// predeterminer
    PDT,
    /// possessive ending
    POS,
    /// pound sign
    POUND,
    /// personal pronoun
    PRP,
    /// possessive pronoun
    PRP_POSS,
    /// sentence-final punctuation
    PUNCT,
    /// closing quotation mark
    QUOT_B,
    /// opening quotation mark
    QUOT_S,
    /// adverb
    RB,
    /// comparative adverb
    RBR,
    /// superlative adverb
    RBS,
    /// adverb or particle (about, off, up)
    RP,
    /// close parenthesis
    RRB,
    /// symbol
    SYM,
    /// to
    TO,
    /// interjection, exclamation
    UH,
    /// no tag could be produced
    UNAVAILABLE,
    /// verb, base form
    VB,
    /// verb, past tense
    VBD,
    /// verb, present participle or gerund
    VBG,
    /// verb, past participle
    VBN,
    /// verb, non-3rd person singular present
    VBP,
    /// verb, 3rd person singular present
    VBZ,
    /// wh-determiner (what, which)
    WDT,
    /// wh-pronoun (who, which, that)
    WP,
    /// possessive wh-pronoun (whose)
    WP_POSS,
    /// wh-adverb (how, where, when)
    WRB,
}

impl POS {
    /// The canonical text of a tag: the exact token by which the tagger
    /// writes it. Every tag has one, the placeholders included.
    pub open spec fn canonical(self) -> Seq<char> {
        match self {
            POS::NNP => "NNP"@,
            POS::COM => ","@,
            POS::CD => "CD"@,
            POS::NNS => "NNS"@,
            POS::JJ => "JJ"@,
            POS::MD => "MD"@,
            POS::VB => "VB"@,
            POS::DT => "DT"@,
            POS::NN => "NN"@,
            POS::IN => "IN"@,
            POS::PUNCT => "."@,
            POS::VBZ => "VBZ"@,
            POS::VBG => "VBG"@,
            POS::CC => "CC"@,
            POS::VBD => "VBD"@,
            POS::VBN => "VBN"@,
            POS::RB => "RB"@,
            POS::TO => "TO"@,
            POS::PRP => "PRP"@,
            POS::RBR => "RBR"@,
            POS::WDT => "WDT"@,
            POS::VBP => "VBP"@,
            POS::RP => "RP"@,
            POS::PRP_POSS => "PRP$"@,
            POS::JJS => "JJS"@,
            POS::POS => "POS"@,
            POS::QUOT_S => "``"@,
            POS::WP => "WP"@,
            POS::QUOT_B => "''"@,
            POS::COL => ":"@,
            POS::JJR => "JJR"@,
            POS::WRB => "WRB"@,
            POS::EX => "EX"@,
            POS::DOL => "$"@,
            POS::NNPS => "NNPS"@,
            POS::WP_POSS => "WP$"@,
            POS::LRB => "-LRB-"@,
            POS::RRB => "-RRB-"@,
            POS::PDT => "PDT"@,
            POS::RBS => "RBS"@,
            POS::FW => "FW"@,
            POS::UH => "UH"@,
            POS::SYM => "SYM"@,
            POS::LS => "LS"@,
            POS::POUND => "#"@,
            POS::PADDING => "PADDING"@,
            POS::UNAVAILABLE => "UNAVAILABLE"@,
            POS::NOT_SET => "POS IS NOT SET"@,
        }
    }

    /// Whether the tagger can write the tag. `NOT_SET` marks a word that has
    /// no tag yet, so it is the one tag that never comes out of the tagger.
    pub open spec fn is_tagger_output(self) -> bool {
        self != POS::NOT_SET
    }

    /// Whether `table` is the reverse of `canonical`: it holds the text of
    /// each tag that the tagger can write, paired with that tag, and nothing
    /// else.
    pub open spec fn is_reverse_table(table: Map<Seq<char>, POS>) -> bool {
        &&& forall|t: POS|
            #![trigger t.canonical()]
            t.is_tagger_output() ==> table.contains_key(t.canonical()) && table[t.canonical()]
                == t
        &&& forall|s: Seq<char>| #[trigger]
            table.contains_key(s) ==> table[s].is_tagger_output() && table[s].canonical() == s
    }

    /// The tag that `table` holds for the text `s`, if it holds one.
    pub open spec fn lookup(table: Map<Seq<char>, POS>, s: Seq<char>) -> Option<POS> {
        if table.contains_key(s) {
            Some(table[s])
        } else {
            None
        }
    }

    /// The canonical text of the tag.
    pub fn to_str(&self) -> (s: &'static str)
        ensures
            s@ == self.canonical(),
            s@.len() > 0,
    {
        proof {
            lemma_canonical_nonempty(*self);
        }
        match self {
            POS::NNP => "NNP",
            POS::COM => ",",
            POS::CD => "CD",
            POS::NNS => "NNS",
            POS::JJ => "JJ",
            POS::MD => "MD",
            POS::VB => "VB",
            POS::DT => "DT",
            POS::NN => "NN",
            POS::IN => "IN",
            POS::PUNCT => ".",
            POS::VBZ => "VBZ",
            POS::VBG => "VBG",
            POS::CC => "CC",
            POS::VBD => "VBD",
            POS::VBN => "VBN",
            POS::RB => "RB",
            POS::TO => "TO",
            POS::PRP => "PRP",
            POS::RBR => "RBR",
            POS::WDT => "WDT",
            POS::VBP => "VBP",
            POS::RP => "RP",
            POS::PRP_POSS => "PRP$",
            POS::JJS => "JJS",
            POS::POS => "POS",
            POS::QUOT_S => "``",
            POS::WP => "WP",
            POS::QUOT_B => "''",
            POS::COL => ":",
            POS::JJR => "JJR",
            POS::WRB => "WRB",
            POS::EX => "EX",
            POS::DOL => "$",
            POS::NNPS => "NNPS",
            POS::WP_POSS => "WP$",
            POS::LRB => "-LRB-",
            POS::RRB => "-RRB-",
            POS::PDT => "PDT",
            POS::RBS => "RBS",
            POS::FW => "FW",
            POS::UH => "UH",
            POS::SYM => "SYM",
            POS::LS => "LS",
            POS::POUND => "#",
            POS::PADDING => "PADDING",
            POS::UNAVAILABLE => "UNAVAILABLE",
            POS::NOT_SET => "POS IS NOT SET",
        }
    }

    /// Enters `tag` in `table` under its canonical text, which must still be
    /// free there: an entry is never overwritten.
    fn enter(table: &mut StringHashMap<POS>, tag: POS)
        requires
            old(table)@.dom().finite(),
            !old(table)@.contains_key(tag.canonical()),
        ensures
            final(table)@ == old(table)@.insert(tag.canonical(), tag),
            final(table)@.dom().finite(),
            final(table)@.len() == old(table)@.len() + 1,
    {
        table.insert(tag.to_str().to_owned(), tag);
    }

    /// Builds the table that reads canonical text back into tags: one entry
    /// for each tag that the tagger can write, under the text that `to_str`
    /// gives for it. No entry replaces another, as `enter` demands.
    pub fn generate_str_to_pos_map() -> (table: StringHashMap<POS>)
        ensures
            Self::is_reverse_table(table@),
            table@.dom().finite(),
            table@.len() == 47,
    {
        proof {
            lemma_canonical_texts();
        }
        let mut table: StringHashMap<POS> = StringHashMap::new();
        Self::enter(&mut table, POS::NNP);
        Self::enter(&mut table, POS::COM);
        Self::enter(&mut table, POS::CD);
        Self::enter(&mut table, POS::NNS);
        Self::enter(&mut table, POS::JJ);
        Self::enter(&mut table, POS::MD);
        Self::enter(&mut table, POS::VB);
        Self::enter(&mut table, POS::DT);
        Self::enter(&mut table, POS::NN);
        Self::enter(&mut table, POS::IN);
        Self::enter(&mut table, POS::PUNCT);
        Self::enter(&mut table, POS::VBZ);
        Self::enter(&mut table, POS::VBG);
        Self::enter(&mut table, POS::CC);
        Self::enter(&mut table, POS::VBD);
        Self::enter(&mut table, POS::VBN);
        Self::enter(&mut table, POS::RB);
        Self::enter(&mut table, POS::TO);
        Self::enter(&mut table, POS::PRP);
        Self::enter(&mut table, POS::RBR);
        Self::enter(&mut table, POS::WDT);
        Self::enter(&mut table, POS::VBP);
        Self::enter(&mut table, POS::RP);
        Self::enter(&mut table, POS::PRP_POSS);
        Self::enter(&mut table, POS::JJS);
        Self::enter(&mut table, POS::POS);
        Self::enter(&mut table, POS::QUOT_S);
        Self::enter(&mut table, POS::WP);
        Self::enter(&mut table, POS::QUOT_B);
        Self::enter(&mut table, POS::COL);
        Self::enter(&mut table, POS::JJR);
        Self::enter(&mut table, POS::WRB);
        Self::enter(&mut table, POS::EX);
        Self::enter(&mut table, POS::DOL);
        Self::enter(&mut table, POS::NNPS);
        Self::enter(&mut table, POS::WP_POSS);
        Self::enter(&mut table, POS::LRB);
        Self::enter(&mut table, POS::RRB);
        Self::enter(&mut table, POS::PDT);
        Self::enter(&mut table, POS::RBS);
        Self::enter(&mut table, POS::FW);
        Self::enter(&mut table, POS::UH);
        Self::enter(&mut table, POS::SYM);
        Self::enter(&mut table, POS::LS);
        Self::enter(&mut table, POS::POUND);
        Self::enter(&mut table, POS::PADDING);
        Self::enter(&mut table, POS::UNAVAILABLE);
        table
    }

    /// Reads a token of tagger output back into its tag. The token is taken
    /// as it stands: nothing is trimmed and case is kept. `None` says that
    /// `table` has no tag for it.
    pub fn from_str(s: &str, table: &StringHashMap<POS>) -> (tag: Option<POS>)
        ensures
            tag == Self::lookup(table@, s@),
    {
        match table.get(s) {
            Some(t) => Some(*t),
            None => None,
        }
    }
}

/// The character of `s` at `i`, if it has one there.
spec fn char_at(s: Seq<char>, i: int) -> Option<char> {
    if 0 <= i < s.len() {
        Some(s[i])
    } else {
        None
    }
}

/// What tells two canonical texts apart: the length of a text and its first
/// three characters.
spec fn head(s: Seq<char>) -> (nat, Option<char>, Option<char>, Option<char>) {
    (s.len(), char_at(s, 0), char_at(s, 1), char_at(s, 2))
}

/// Every canonical text has at least one character, and no two tags share a
/// text.
proof fn lemma_canonical_texts()
    ensures
        forall|t: POS| #![trigger t.canonical()] t.canonical().len() > 0,
        forall|t1: POS, t2: POS|
            #![trigger t1.canonical(), t2.canonical()]
            t1.canonical() == t2.canonical() ==> t1 == t2,
{
    // Each text is revealed and seen to be non-empty. That brings its length
    // and first characters into the proof, which the comparison of heads
    // below then runs on.
    reveal_strlit("NNP"); assert(head("NNP"@).0 > 0);
    reveal_strlit(","); assert(head(","@).0 > 0);
    reveal_strlit("CD"); assert(head("CD"@).0 > 0);
    reveal_strlit("NNS"); assert(head("NNS"@).0 > 0);
    reveal_strlit("JJ"); assert(head("JJ"@).0 > 0);
    reveal_strlit("MD"); assert(head("MD"@).0 > 0);
    reveal_strlit("VB"); assert(head("VB"@).0 > 0);
    reveal_strlit("DT"); assert(head("DT"@).0 > 0);
    reveal_strlit("NN"); assert(head("NN"@).0 > 0);
    reveal_strlit("IN"); assert(head("IN"@).0 > 0);
    reveal_strlit("."); assert(head("."@).0 > 0);
    reveal_strlit("VBZ"); assert(head("VBZ"@).0 > 0);
    reveal_strlit("VBG"); assert(head("VBG"@).0 > 0);
    reveal_strlit("CC"); assert(head("CC"@).0 > 0);
    reveal_strlit("VBD"); assert(head("VBD"@).0 > 0);
    reveal_strlit("VBN"); assert(head("VBN"@).0 > 0);
    reveal_strlit("RB"); assert(head("RB"@).0 > 0);
    reveal_strlit("TO"); assert(head("TO"@).0 > 0);
    reveal_strlit("PRP"); assert(head("PRP"@).0 > 0);
    reveal_strlit("RBR"); assert(head("RBR"@).0 > 0);
    reveal_strlit("WDT"); assert(head("WDT"@).0 > 0);
    reveal_strlit("VBP"); assert(head("VBP"@).0 > 0);
    reveal_strlit("RP"); assert(head("RP"@).0 > 0);
    reveal_strlit("PRP$"); assert(head("PRP$"@).0 > 0);
    reveal_strlit("JJS"); assert(head("JJS"@).0 > 0);
    reveal_strlit("POS"); assert(head("POS"@).0 > 0);
    reveal_strlit("``"); assert(head("``"@).0 > 0);
    reveal_strlit("WP"); assert(head("WP"@).0 > 0);
    reveal_strlit("''"); assert(head("''"@).0 > 0);
    reveal_strlit(":"); assert(head(":"@).0 > 0);
    reveal_strlit("JJR"); assert(head("JJR"@).0 > 0);
    reveal_strlit("WRB"); assert(head("WRB"@).0 > 0);
    reveal_strlit("EX"); assert(head("EX"@).0 > 0);
    reveal_strlit("$"); assert(head("$"@).0 > 0);
    reveal_strlit("NNPS"); assert(head("NNPS"@).0 > 0);
    reveal_strlit("WP$"); assert(head("WP$"@).0 > 0);
    reveal_strlit("-LRB-"); assert(head("-LRB-"@).0 > 0);
    reveal_strlit("-RRB-"); assert(head("-RRB-"@).0 > 0);
    reveal_strlit("PDT"); assert(head("PDT"@).0 > 0);
    reveal_strlit("RBS"); assert(head("RBS"@).0 > 0);
    reveal_strlit("FW"); assert(head("FW"@).0 > 0);
    reveal_strlit("UH"); assert(head("UH"@).0 > 0);
    reveal_strlit("SYM"); assert(head("SYM"@).0 > 0);
    reveal_strlit("LS"); assert(head("LS"@).0 > 0);
    reveal_strlit("#"); assert(head("#"@).0 > 0);
    reveal_strlit("PADDING"); assert(head("PADDING"@).0 > 0);
    reveal_strlit("UNAVAILABLE"); assert(head("UNAVAILABLE"@).0 > 0);
    reveal_strlit("POS IS NOT SET"); assert(head("POS IS NOT SET"@).0 > 0);
    assert forall|t1: POS, t2: POS| t1.canonical() == t2.canonical() implies t1 == t2 by {
        assert(head(t1.canonical()) == head(t2.canonical()));
    }
}

/// Every tag has a canonical text of at least one character, `NOT_SET`
/// included.
pub proof fn lemma_canonical_nonempty(t: POS)
    ensures
        t.canonical().len() > 0,
{
    lemma_canonical_texts();
}

/// No two tags share a canonical text, `NOT_SET` included.
pub proof fn lemma_canonical_injective(t1: POS, t2: POS)
    requires
        t1.canonical() == t2.canonical(),
    ensures
        t1 == t2,
{
    lemma_canonical_texts();
}

/// A reverse table gives back the tag of every text that the tagger can
/// write.
pub proof fn lemma_round_trip(table: Map<Seq<char>, POS>, t: POS)
    requires
        POS::is_reverse_table(table),
        t.is_tagger_output(),
    ensures
        POS::lookup(table, t.canonical()) == Some(t),
{
}

/// What a reverse table finds for a text: the one tag that the tagger writes
/// as that text, and nothing where no tag is written so. The text of
/// `NOT_SET` is among those for which it finds nothing.
pub proof fn lemma_lookup_exact(table: Map<Seq<char>, POS>, s: Seq<char>)
    requires
        POS::is_reverse_table(table),
    ensures
        match POS::lookup(table, s) {
            Some(t) => t.is_tagger_output() && t.canonical() == s,
            None => forall|t: POS|
                #![trigger t.canonical()]
                t.is_tagger_output() ==> t.canonical() != s,
        },
        POS::lookup(table, POS::NOT_SET.canonical()) is None,
{
    lemma_canonical_texts();
}

/// There is one reverse table only: two of them hold the same texts with the
/// same tags, however and whenever each was built.
pub proof fn lemma_reverse_table_unique(a: Map<Seq<char>, POS>, b: Map<Seq<char>, POS>)
    requires
        POS::is_reverse_table(a),
        POS::is_reverse_table(b),
    ensures
        a == b,
{
    lemma_canonical_texts();
    assert(a =~= b);
}

} // verus!
