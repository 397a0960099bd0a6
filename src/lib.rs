//! Building blocks of a WordPiece vocabulary trainer: the whitespace
//! pre-tokenization rule, the selection of input files by extension, the
//! fixed training configuration and the location of the written vocabulary.

pub mod config;
pub mod files;
pub mod pre_tokenizer;

pub use pre_tokenizer::BertPuncPreTokenizer;
