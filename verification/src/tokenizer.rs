//! The tokenizer adapter: free text becomes a fixed-length token id
//! sequence. The underlying encoder is an opaque outside tokenizer whose
//! output is described by the relation [`is_token_ids_of`] — an encoder may
//! be configured with merge dropout, so two encodings of one text need not
//! agree, and no determinism is assumed. The padding up to the model's
//! context length, and the rejection of texts that already encode past it,
//! are the library's own, verified, logic.

use vstd::prelude::*;

use candle_transformers::models::stable_diffusion::StableDiffusionConfig;

use crate::config::clip_max_position_embeddings;
use crate::config::clip_pad_with;
use crate::config::spec_clip_maxpos;
use crate::config::spec_clip_pad_text;
use crate::error::DiffusionError;

verus! {

/// The opaque text encoder of the outside tokenizer library; the verifier
/// sees nothing inside it, so it is held behind this struct.
#[verifier::external_body]
pub struct TokenEncoder {
    inner: tokenizers::Tokenizer,
}

/// That `ids` is a possible encoding of `text` by this encoder (with
/// special tokens). Encoders configured with merge dropout draw random
/// merges, so a text can have several encodings; every successful encode
/// call returns one of them.
pub uninterp spec fn is_token_ids_of(t: TokenEncoder, text: Seq<char>, ids: Seq<u32>) -> bool;

/// The id a token has in this encoder's vocabulary (with added tokens), if
/// it is there: a fixed lookup table of the loaded encoder.
pub uninterp spec fn spec_vocab_id(t: TokenEncoder, token: Seq<char>) -> Option<u32>;

/// Relies on `tokenizers::Tokenizer::from_file`: loads a tokenizer
/// definition from a JSON file on disk.
#[verifier::external_body]
fn tokenizer_from_file(file: &str) -> Result<TokenEncoder, String> {
    let inner = tokenizers::Tokenizer::from_file(file).map_err(|e| format!("{e}"))?;
    Ok(TokenEncoder { inner })
}

/// Relies on `tokenizers::Tokenizer::encode` (with special tokens) and
/// `Encoding::get_ids`: a successful call returns one of the text's
/// possible encodings.
#[verifier::external_body]
fn encode_ids(t: &TokenEncoder, text: &str) -> (r: Result<Vec<u32>, String>)
    ensures
        r matches Ok(v) ==> is_token_ids_of(*t, text@, v@),
{
    let encoding = t.inner.encode(text, true).map_err(|e| format!("{e}"))?;
    Ok(encoding.get_ids().to_vec())
}

/// Relies on `tokenizers::Tokenizer::get_vocab`: the id of a token in the
/// vocabulary (with added tokens), if it is there — a deterministic lookup.
#[verifier::external_body]
fn vocab_id(t: &TokenEncoder, token: &str) -> (r: Option<u32>)
    ensures
        r == spec_vocab_id(*t, token@),
{
    t.inner.get_vocab(true).get(token).copied()
}

/// `ids`, padded with `pad` up to length `maxpos`; a sequence already that
/// long is kept as it is (never truncated).
pub open spec fn spec_padded(ids: Seq<u32>, pad: u32, maxpos: nat) -> Seq<u32> {
    if ids.len() >= maxpos {
        ids
    } else {
        ids + Seq::new((maxpos - ids.len()) as nat, |i: int| pad)
    }
}

/// The tokenizer adapter: the opaque encoder, the configured pad token id,
/// and the context length to pad to.
pub struct Tokenizer {
    tokenizer: TokenEncoder,
    pad_id: u32,
    max_position_embeddings: usize,
}

impl Tokenizer {
    /// The context length that this adapter pads to.
    pub closed spec fn spec_max_position_embeddings(&self) -> usize {
        self.max_position_embeddings
    }

    /// The pad token id this adapter uses.
    pub closed spec fn spec_pad_id(&self) -> u32 {
        self.pad_id
    }

    /// The opaque encoder of this adapter.
    pub closed spec fn spec_tokenizer(&self) -> TokenEncoder {
        self.tokenizer
    }

    /// The built adapter pads with the configuration's pad token — the
    /// configured one, or the end-of-text token — at the id the encoder's
    /// vocabulary gives it, up to the configuration's context length.
    pub open spec fn spec_matches_config(&self, config: StableDiffusionConfig) -> bool {
        &&& self.spec_max_position_embeddings() == spec_clip_maxpos(config)
        &&& match spec_clip_pad_text(config) {
            Some(pad) => spec_vocab_id(self.spec_tokenizer(), pad) == Some(self.spec_pad_id()),
            None => spec_vocab_id(self.spec_tokenizer(), "<|endoftext|>"@) == Some(
                self.spec_pad_id(),
            ),
        }
    }

    /// Load the tokenizer of `file` and adopt the configuration's pad token
    /// (the configured one, or the end-of-text token) and context length.
    /// Fails with a construction error when the file does not load or the
    /// pad token is not in the vocabulary.
    pub fn new(config: &StableDiffusionConfig, file: &str) -> (r: Result<Tokenizer, DiffusionError>)
        ensures
            r matches Ok(t) ==> t.spec_matches_config(*config),
            r matches Err(e) ==> e matches DiffusionError::Construction(_),
    {
        let tokenizer = match tokenizer_from_file(file) {
            Ok(t) => t,
            Err(e) => {
                return Err(DiffusionError::Construction(e));
            },
        };
        let pad_lookup = match clip_pad_with(config) {
            Some(padding) => vocab_id(&tokenizer, padding.as_str()),
            None => vocab_id(&tokenizer, "<|endoftext|>"),
        };
        let pad_id = match pad_lookup {
            Some(id) => id,
            None => {
                return Err(
                    DiffusionError::Construction("pad token not in the vocabulary".to_owned()),
                );
            },
        };
        let max_position_embeddings = clip_max_position_embeddings(config);
        Ok(Tokenizer { pad_id, tokenizer, max_position_embeddings })
    }

    /// Tokenize a text and pad it with the pad token up to the context
    /// length. A text that already encodes past the context length is
    /// rejected, so a successful result has exactly the context length:
    /// one possible encoding of the text, followed by pad ids.
    pub fn tokenize(&self, text: &str) -> (r: Result<Vec<u32>, DiffusionError>)
        ensures
            r matches Ok(v) ==> v@.len() == self.spec_max_position_embeddings(),
            r matches Ok(v) ==> exists|ids: Seq<u32>|
                #[trigger] is_token_ids_of(self.spec_tokenizer(), text@, ids) && ids.len()
                    <= self.spec_max_position_embeddings() && v@ == spec_padded(
                    ids,
                    self.spec_pad_id(),
                    self.spec_max_position_embeddings() as nat,
                ),
            r matches Err(e) ==> e matches DiffusionError::Generation(_),
    {
        let mut tokens = match encode_ids(&self.tokenizer, text) {
            Ok(v) => v,
            Err(e) => {
                return Err(DiffusionError::Generation(e));
            },
        };
        if tokens.len() > self.max_position_embeddings {
            return Err(
                DiffusionError::Generation(
                    "the prompt encodes past the model's context length".to_owned(),
                ),
            );
        }
        let ghost encoded = tokens@;
        while tokens.len() < self.max_position_embeddings
            invariant
                encoded.len() <= tokens@.len(),
                tokens@.subrange(0, encoded.len() as int) == encoded,
                forall|i: int| encoded.len() <= i < tokens@.len() ==> tokens@[i] == self.pad_id,
                tokens@.len() <= self.max_position_embeddings,
            decreases self.max_position_embeddings - tokens@.len(),
        {
            tokens.push(self.pad_id);
        }
        proof {
            assert(tokens@ =~= spec_padded(
                encoded,
                self.pad_id,
                self.max_position_embeddings as nat,
            ));
            assert(is_token_ids_of(self.spec_tokenizer(), text@, encoded) && encoded.len()
                <= self.spec_max_position_embeddings() && tokens@ == spec_padded(
                encoded,
                self.spec_pad_id(),
                self.spec_max_position_embeddings() as nat,
            ));
        }
        Ok(tokens)
    }

    /// Tokenize a prompt, and an optional second prompt: both are padded
    /// independently, and the second is present in the result exactly when
    /// it was given. Both results have exactly the context length.
    pub fn tokenize_pair(&self, prompt: &str, uncond_prompt: Option<&str>) -> (r: Result<
        (Vec<u32>, Option<Vec<u32>>),
        DiffusionError,
    >)
        ensures
            r matches Ok(pair) ==> {
                &&& pair.0@.len() == self.spec_max_position_embeddings()
                &&& exists|ids: Seq<u32>|
                    #[trigger] is_token_ids_of(self.spec_tokenizer(), prompt@, ids) && ids.len()
                        <= self.spec_max_position_embeddings() && pair.0@ == spec_padded(
                        ids,
                        self.spec_pad_id(),
                        self.spec_max_position_embeddings() as nat,
                    )
                &&& (pair.1 is Some <==> uncond_prompt is Some)
                &&& (pair.1 matches Some(v) ==> v@.len() == self.spec_max_position_embeddings())
            },
            r matches Err(e) ==> e matches DiffusionError::Generation(_),
    {
        let prompt_tokens = self.tokenize(prompt)?;
        let uncond_tokens = match uncond_prompt {
            Some(uncond) => Some(self.tokenize(uncond)?),
            None => None,
        };
        Ok((prompt_tokens, uncond_tokens))
    }
}

} // verus!
