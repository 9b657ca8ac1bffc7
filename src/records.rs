use vstd::prelude::*;

use crate::flatten::{AsUsize, CSlice, Handle};

verus! {

/// A decrypted group message: its plaintext and the index it was sent at.
#[derive(Clone, Copy, Debug)]
pub struct DecryptedMessage {
    pub plaintext: CSlice<u8>,
    pub message_index: usize,
}

impl AsUsize for DecryptedMessage {
    open spec fn arity() -> nat {
        3
    }

    open spec fn words(&self) -> Seq<usize> {
        self.plaintext.words() + seq![self.message_index]
    }

    proof fn lemma_words_fit(&self) {
    }

    fn word_count() -> (r: usize) {
        3
    }

    fn as_usize(&self) -> (r: Vec<usize>) {
        let mut r = self.plaintext.as_usize();
        r.push(self.message_index);
        r
    }
}

/// An account sealed for a dehydrated device: ciphertext and nonce.
#[derive(Clone, Copy, Debug)]
pub struct DehydratedDeviceResult {
    pub ciphertext: CSlice<u8>,
    pub nonce: CSlice<u8>,
}

impl AsUsize for DehydratedDeviceResult {
    open spec fn arity() -> nat {
        4
    }

    open spec fn words(&self) -> Seq<usize> {
        self.ciphertext.words() + self.nonce.words()
    }

    proof fn lemma_words_fit(&self) {
    }

    fn word_count() -> (r: usize) {
        4
    }

    fn as_usize(&self) -> (r: Vec<usize>) {
        let mut r = self.ciphertext.as_usize();
        let mut w = self.nonce.as_usize();
        r.append(&mut w);
        r
    }
}

/// The two public identity keys of an account.
#[derive(Clone, Copy, Debug)]
pub struct IdentityKeys {
    pub ed25519: Handle,
    pub curve25519: Handle,
}

impl AsUsize for IdentityKeys {
    open spec fn arity() -> nat {
        2
    }

    open spec fn words(&self) -> Seq<usize> {
        self.ed25519.words() + self.curve25519.words()
    }

    proof fn lemma_words_fit(&self) {
    }

    fn word_count() -> (r: usize) {
        2
    }

    fn as_usize(&self) -> (r: Vec<usize>) {
        let mut r = self.ed25519.as_usize();
        let mut w = self.curve25519.as_usize();
        r.append(&mut w);
        r
    }
}

/// A session created from a first message, with that message's plaintext.
#[derive(Clone, Copy, Debug)]
pub struct InboundCreationResult {
    pub plaintext: CSlice<u8>,
    pub session: Handle,
}

impl AsUsize for InboundCreationResult {
    open spec fn arity() -> nat {
        3
    }

    open spec fn words(&self) -> Seq<usize> {
        self.plaintext.words() + self.session.words()
    }

    proof fn lemma_words_fit(&self) {
    }

    fn word_count() -> (r: usize) {
        3
    }

    fn as_usize(&self) -> (r: Vec<usize>) {
        let mut r = self.plaintext.as_usize();
        let mut w = self.session.as_usize();
        r.append(&mut w);
        r
    }
}

/// The one-time keys that a generation created and those it pushed out.
#[derive(Clone, Copy, Debug)]
pub struct OneTimeKeyGenerationResult {
    pub created: CSlice<Handle>,
    pub removed: CSlice<Handle>,
}

impl AsUsize for OneTimeKeyGenerationResult {
    open spec fn arity() -> nat {
        4
    }

    open spec fn words(&self) -> Seq<usize> {
        self.created.words() + self.removed.words()
    }

    proof fn lemma_words_fit(&self) {
    }

    fn word_count() -> (r: usize) {
        4
    }

    fn as_usize(&self) -> (r: Vec<usize>) {
        let mut r = self.created.as_usize();
        let mut w = self.removed.as_usize();
        r.append(&mut w);
        r
    }
}

/// A pairwise message: a normal message, or a pre-key message that also
/// carries the keys of the session it opens. It is written as a tag, 0 or 1,
/// followed by the handles.
#[derive(Clone, Copy, Debug)]
pub enum OlmMessage {
    Normal { message: Handle },
    PreKey { message: Handle, session_keys: Handle },
}

impl OlmMessage {
    /// A pre-key message where session keys are given, a normal one otherwise.
    pub fn new(message: Handle, session_keys: Option<Handle>) -> (r: OlmMessage)
        ensures
            r == (match session_keys {
                Some(k) => OlmMessage::PreKey { message, session_keys: k },
                None => OlmMessage::Normal { message },
            }),
    {
        match session_keys {
            Some(session_keys) => OlmMessage::PreKey { message, session_keys },
            None => OlmMessage::Normal { message },
        }
    }
}

impl AsUsize for OlmMessage {
    open spec fn arity() -> nat {
        3
    }

    open spec fn words(&self) -> Seq<usize> {
        match self {
            OlmMessage::Normal { message } => seq![0usize, message.address()],
            OlmMessage::PreKey { message, session_keys } => seq![
                1usize,
                message.address(),
                session_keys.address(),
            ],
        }
    }

    proof fn lemma_words_fit(&self) {
    }

    fn word_count() -> (r: usize) {
        3
    }

    fn as_usize(&self) -> (r: Vec<usize>) {
        let mut r: Vec<usize> = Vec::new();
        match self {
            OlmMessage::Normal { message } => {
                r.push(0);
                r.push(message.addr());
            },
            OlmMessage::PreKey { message, session_keys } => {
                r.push(1);
                r.push(message.addr());
                r.push(session_keys.addr());
            },
        }
        r
    }
}

} // verus!
