use vstd::prelude::*;

verus! {

/// The names of the special tokens, in the order they are registered. Each one is
/// kept in the vocabulary whatever the corpus holds, and never split.
pub open spec fn special_token_names() -> Seq<Seq<char>> {
    seq![
        "[PAD]"@,
        "[UNK]"@,
        "[CLS]"@,
        "[SEP]"@,
        "[MASK]"@,
        "[AMOUNT]"@,
        "[ARAB]"@,
        "[ARMN]"@,
        "[BRAI]"@,
        "[CURR]"@,
        "[CYRL]"@,
        "[DATE]"@,
        "[EMAIL]"@,
        "[FOREIGN]"@,
        "[GEOR]"@,
        "[GREK]"@,
        "[HANG]"@,
        "[HANI]"@,
        "[HEBR]"@,
        "[HIND]"@,
        "[ISBN]"@,
        "[JAPN]"@,
        "[THAI]"@,
        "[TIME]"@,
        "[URL]"@,
        "[YEAR]"@,
    ]
}

/// The marker that starts every piece of a word but the first.
pub open spec fn subword_prefix() -> Seq<char> {
    "##"@
}

/// The largest number of distinct characters kept in the initial alphabet.
pub const ALPHABET_LIMIT: usize = 1000;

/// A token registered with the trainer.
pub struct SpecialToken {
    pub content: String,
    /// Marked as special: kept out of normalization and never split.
    pub special: bool,
    /// Matched only as a whole word.
    pub single_word: bool,
}

/// Settings of the BERT normalizer of the pipeline.
pub struct NormalizerConfig {
    pub clean_text: bool,
    pub handle_chinese_chars: bool,
    pub strip_accents: Option<bool>,
    pub lowercase: bool,
}

/// Settings of one training run: the WordPiece trainer, the normalizer and the
/// WordPiece decoder of the pipeline.
pub struct TrainingConfig {
    pub show_progress: bool,
    pub vocab_size: usize,
    pub limit_alphabet: usize,
    pub continuing_subword_prefix: String,
    pub special_tokens: Vec<SpecialToken>,
    pub normalizer: NormalizerConfig,
    pub decoder_prefix: String,
    pub decoder_cleanup: bool,
}

/// The special tokens of a configuration are exactly the fixed list, in order, each
/// marked special and single-word.
pub open spec fn has_special_tokens(tokens: Seq<SpecialToken>) -> bool {
    &&& tokens.map_values(|t: SpecialToken| t.content@) == special_token_names()
    &&& forall|i: int| 0 <= i < tokens.len() ==> (#[trigger] tokens[i]).special && tokens[i].single_word
}

fn special_token(name: &str) -> (t: SpecialToken)
    ensures
        t.content@ == name@,
        t.special,
        t.single_word,
{
    SpecialToken { content: name.to_owned(), special: true, single_word: true }
}

/// The fixed list of special tokens.
pub fn special_tokens() -> (r: Vec<SpecialToken>)
    ensures
        has_special_tokens(r@),
{
    let mut v: Vec<SpecialToken> = Vec::new();
    v.push(special_token("[PAD]"));
    v.push(special_token("[UNK]"));
    v.push(special_token("[CLS]"));
    v.push(special_token("[SEP]"));
    v.push(special_token("[MASK]"));
    v.push(special_token("[AMOUNT]"));
    v.push(special_token("[ARAB]"));
    v.push(special_token("[ARMN]"));
    v.push(special_token("[BRAI]"));
    v.push(special_token("[CURR]"));
    v.push(special_token("[CYRL]"));
    v.push(special_token("[DATE]"));
    v.push(special_token("[EMAIL]"));
    v.push(special_token("[FOREIGN]"));
    v.push(special_token("[GEOR]"));
    v.push(special_token("[GREK]"));
    v.push(special_token("[HANG]"));
    v.push(special_token("[HANI]"));
    v.push(special_token("[HEBR]"));
    v.push(special_token("[HIND]"));
    v.push(special_token("[ISBN]"));
    v.push(special_token("[JAPN]"));
    v.push(special_token("[THAI]"));
    v.push(special_token("[TIME]"));
    v.push(special_token("[URL]"));
    v.push(special_token("[YEAR]"));
    assert(v@.map_values(|t: SpecialToken| t.content@) =~= special_token_names());
    v
}

impl TrainingConfig {
    /// The configuration of a run that aims at `vocab_size` entries: progress shown,
    /// an alphabet of at most 1000 characters, the prefix `##` for trainer and decoder,
    /// the fixed special tokens, a normalizer that changes nothing it can be told not
    /// to (no cleaning, no Chinese-character spacing, no accent stripping, no
    /// lowercasing) and a decoder without cleanup.
    pub fn new(vocab_size: usize) -> (c: TrainingConfig)
        ensures
            c.show_progress,
            c.vocab_size == vocab_size,
            c.limit_alphabet == 1000,
            c.continuing_subword_prefix@ == subword_prefix(),
            has_special_tokens(c.special_tokens@),
            !c.normalizer.clean_text,
            !c.normalizer.handle_chinese_chars,
            c.normalizer.strip_accents == Some(false),
            !c.normalizer.lowercase,
            c.decoder_prefix@ == subword_prefix(),
            !c.decoder_cleanup,
    {
        TrainingConfig {
            show_progress: true,
            vocab_size,
            limit_alphabet: ALPHABET_LIMIT,
            continuing_subword_prefix: "##".to_owned(),
            special_tokens: special_tokens(),
            normalizer: NormalizerConfig {
                clean_text: false,
                handle_chinese_chars: false,
                strip_accents: Some(false),
                lowercase: false,
            },
            decoder_prefix: "##".to_owned(),
            decoder_cleanup: false,
        }
    }
}

/// The special tokens are 26 pairwise distinct names, so each one takes an entry
/// of its own in the vocabulary.
pub proof fn lemma_special_tokens_distinct()
    ensures
        special_token_names().len() == 26,
        special_token_names().no_duplicates(),
{
    reveal_strlit("[PAD]");
    reveal_strlit("[UNK]");
    reveal_strlit("[CLS]");
    reveal_strlit("[SEP]");
    reveal_strlit("[MASK]");
    reveal_strlit("[AMOUNT]");
    reveal_strlit("[ARAB]");
    reveal_strlit("[ARMN]");
    reveal_strlit("[BRAI]");
    reveal_strlit("[CURR]");
    reveal_strlit("[CYRL]");
    reveal_strlit("[DATE]");
    reveal_strlit("[EMAIL]");
    reveal_strlit("[FOREIGN]");
    reveal_strlit("[GEOR]");
    reveal_strlit("[GREK]");
    reveal_strlit("[HANG]");
    reveal_strlit("[HANI]");
    reveal_strlit("[HEBR]");
    reveal_strlit("[HIND]");
    reveal_strlit("[ISBN]");
    reveal_strlit("[JAPN]");
    reveal_strlit("[THAI]");
    reveal_strlit("[TIME]");
    reveal_strlit("[URL]");
    reveal_strlit("[YEAR]");
    let s = special_token_names();
    // Characters 1 to 4 tell the names apart.
    assert(s[0][1] == 'P' && s[0][2] == 'A' && s[0][3] == 'D' && s[0][4] == ']');
    assert(s[1][1] == 'U' && s[1][2] == 'N' && s[1][3] == 'K' && s[1][4] == ']');
    assert(s[2][1] == 'C' && s[2][2] == 'L' && s[2][3] == 'S' && s[2][4] == ']');
    assert(s[3][1] == 'S' && s[3][2] == 'E' && s[3][3] == 'P' && s[3][4] == ']');
    assert(s[4][1] == 'M' && s[4][2] == 'A' && s[4][3] == 'S' && s[4][4] == 'K');
    assert(s[5][1] == 'A' && s[5][2] == 'M' && s[5][3] == 'O' && s[5][4] == 'U');
    assert(s[6][1] == 'A' && s[6][2] == 'R' && s[6][3] == 'A' && s[6][4] == 'B');
    assert(s[7][1] == 'A' && s[7][2] == 'R' && s[7][3] == 'M' && s[7][4] == 'N');
    assert(s[8][1] == 'B' && s[8][2] == 'R' && s[8][3] == 'A' && s[8][4] == 'I');
    assert(s[9][1] == 'C' && s[9][2] == 'U' && s[9][3] == 'R' && s[9][4] == 'R');
    assert(s[10][1] == 'C' && s[10][2] == 'Y' && s[10][3] == 'R' && s[10][4] == 'L');
    assert(s[11][1] == 'D' && s[11][2] == 'A' && s[11][3] == 'T' && s[11][4] == 'E');
    assert(s[12][1] == 'E' && s[12][2] == 'M' && s[12][3] == 'A' && s[12][4] == 'I');
    assert(s[13][1] == 'F' && s[13][2] == 'O' && s[13][3] == 'R' && s[13][4] == 'E');
    assert(s[14][1] == 'G' && s[14][2] == 'E' && s[14][3] == 'O' && s[14][4] == 'R');
    assert(s[15][1] == 'G' && s[15][2] == 'R' && s[15][3] == 'E' && s[15][4] == 'K');
    assert(s[16][1] == 'H' && s[16][2] == 'A' && s[16][3] == 'N' && s[16][4] == 'G');
    assert(s[17][1] == 'H' && s[17][2] == 'A' && s[17][3] == 'N' && s[17][4] == 'I');
    assert(s[18][1] == 'H' && s[18][2] == 'E' && s[18][3] == 'B' && s[18][4] == 'R');
    assert(s[19][1] == 'H' && s[19][2] == 'I' && s[19][3] == 'N' && s[19][4] == 'D');
    assert(s[20][1] == 'I' && s[20][2] == 'S' && s[20][3] == 'B' && s[20][4] == 'N');
    assert(s[21][1] == 'J' && s[21][2] == 'A' && s[21][3] == 'P' && s[21][4] == 'N');
    assert(s[22][1] == 'T' && s[22][2] == 'H' && s[22][3] == 'A' && s[22][4] == 'I');
    assert(s[23][1] == 'T' && s[23][2] == 'I' && s[23][3] == 'M' && s[23][4] == 'E');
    assert(s[24][1] == 'U' && s[24][2] == 'R' && s[24][3] == 'L' && s[24][4] == ']');
    assert(s[25][1] == 'Y' && s[25][2] == 'E' && s[25][3] == 'A' && s[25][4] == 'R');
    assert forall|i: int, j: int|
        0 <= i < s.len() && 0 <= j < s.len() && i != j implies s[i] != s[j] by {
        assert(
            i == 0 || i == 1 || i == 2 || i == 3 || i == 4 || i == 5 || i == 6
                || i == 7 || i == 8 || i == 9 || i == 10 || i == 11 || i == 12 || i == 13
                || i == 14 || i == 15 || i == 16 || i == 17 || i == 18 || i == 19 || i == 20
                || i == 21 || i == 22 || i == 23 || i == 24 || i == 25
        );
        assert(
            j == 0 || j == 1 || j == 2 || j == 3 || j == 4 || j == 5 || j == 6
                || j == 7 || j == 8 || j == 9 || j == 10 || j == 11 || j == 12 || j == 13
                || j == 14 || j == 15 || j == 16 || j == 17 || j == 18 || j == 19 || j == 20
                || j == 21 || j == 22 || j == 23 || j == 24 || j == 25
        );
        if s[i] == s[j] {
            assert(s[i][1] == s[j][1] && s[i][2] == s[j][2]);
            assert(s[i][3] == s[j][3] && s[i][4] == s[j][4]);
        }
    }
}

/// Name of the file the trained vocabulary is written to.
pub open spec fn vocab_file_name() -> Seq<char> {
    "vocab.json"@
}

/// The path of the vocabulary file inside directory `dir`: a `/` is put between the
/// two unless `dir` is empty or already ends with one.
pub open spec fn vocab_path_in(dir: Seq<char>) -> Seq<char> {
    if dir.len() == 0 || dir.last() == '/' {
        dir + vocab_file_name()
    } else {
        dir + "/"@ + vocab_file_name()
    }
}

/// Where the vocabulary trained into directory `dir` is written.
pub fn vocab_file_path(dir: &str) -> (r: String)
    ensures
        r@ == vocab_path_in(dir@),
{
    let n = dir.unicode_len();
    if n == 0 || dir.get_char(n - 1) == '/' {
        dir.to_owned().concat("vocab.json")
    } else {
        dir.to_owned().concat("/").concat("vocab.json")
    }
}

} // verus!
