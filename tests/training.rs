use tokenizers::decoders::wordpiece::WordPiece as WordPieceDecoder;
use tokenizers::models::wordpiece::{WordPiece, WordPieceTrainer, WordPieceTrainerBuilder};
use tokenizers::normalizers::BertNormalizer;
use tokenizers::processors::bert::BertProcessing;
use tokenizers::tokenizer::normalizer::Range;
use tokenizers::tokenizer::{TokenizerBuilder, TokenizerImpl};
use tokenizers::{AddedToken, PreTokenizedString, PreTokenizer};

use train_vocab::config::{special_tokens, TrainingConfig};
use train_vocab::BertPuncPreTokenizer;

struct Rule;

impl PreTokenizer for Rule {
    fn pre_tokenize(&self, pretokenized: &mut PreTokenizedString) -> tokenizers::Result<()> {
        pretokenized.split(|_, normalized| {
            let text = normalized.get().to_string();
            let bounds: Vec<usize> =
                text.char_indices().map(|(b, _)| b).chain(std::iter::once(text.len())).collect();
            let pieces: Vec<_> = BertPuncPreTokenizer
                .pre_tokenize(&text)
                .into_iter()
                .filter_map(|(s, e)| normalized.slice(Range::Normalized(bounds[s]..bounds[e])))
                .collect();
            Ok(pieces)
        })
    }
}

type Pipeline = TokenizerImpl<WordPiece, BertNormalizer, Rule, BertProcessing, WordPieceDecoder>;

fn trainer(config: &TrainingConfig) -> WordPieceTrainer {
    let tokens = config
        .special_tokens
        .iter()
        .map(|t| AddedToken::from(t.content.clone(), t.special).single_word(t.single_word))
        .collect();
    WordPieceTrainerBuilder::new()
        .show_progress(false)
        .vocab_size(config.vocab_size)
        .limit_alphabet(config.limit_alphabet)
        .continuing_subword_prefix(config.continuing_subword_prefix.clone())
        .special_tokens(tokens)
        .build()
}

fn train(lines: &[&str], vocab_size: usize) -> Pipeline {
    let config = TrainingConfig::new(vocab_size);
    let n = &config.normalizer;
    let mut tokenizer: Pipeline = TokenizerBuilder::new()
        .with_model(WordPiece::default())
        .with_normalizer(Some(BertNormalizer::new(
            n.clean_text,
            n.handle_chinese_chars,
            n.strip_accents,
            n.lowercase,
        )))
        .with_post_processor(Some(BertProcessing::default()))
        .with_pre_tokenizer(Some(Rule))
        .with_decoder(Some(WordPieceDecoder::new(config.decoder_prefix.clone(), config.decoder_cleanup)))
        .build()
        .unwrap();
    tokenizer.train(&mut trainer(&config), lines.iter()).unwrap();
    tokenizer
}

#[test]
fn trained_vocabulary_holds_every_special_token() {
    let tokenizer = train(&["hello world hello"], 30);
    let vocab = tokenizer.get_vocab(true);
    let tokens = special_tokens();
    let mut ids: Vec<u32> = tokens.iter().map(|t| vocab[&t.content]).collect();
    ids.sort();
    ids.dedup();
    assert_eq!(ids.len(), tokens.len());
}

#[test]
fn trained_vocabulary_holds_pieces_of_the_corpus() {
    let tokenizer = train(&["hello world hello"], 30);
    let vocab = tokenizer.get_vocab(false);
    for c in ["h", "e", "l", "o", "w", "r", "d"] {
        assert!(vocab.contains_key(c), "missing {c}");
    }
    assert!(vocab.len() > special_tokens().len());
}

#[test]
fn encoding_a_seen_sentence_is_stable() {
    let first = train(&["hello world hello"], 30);
    let second = train(&["hello world hello"], 30);
    let a = first.encode("hello world", false).unwrap();
    let b = first.encode("hello world", false).unwrap();
    let c = second.encode("hello world", false).unwrap();
    assert!(!a.get_ids().is_empty());
    assert_eq!(a.get_ids(), b.get_ids());
    assert_eq!(a.get_tokens(), c.get_tokens());
}
