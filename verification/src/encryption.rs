//! The encryption capability surface and the crypto-context bridge.
//!
//! A key-management plugin answers key lookups; an encryption plugin
//! additionally supplies a streaming cipher context. One context serves
//! exactly one encrypt-or-decrypt operation: created by `init`, consumed
//! by exactly one `update`, finalized by one `finish`, then discarded.
//! A multi-chunk `update` protocol is a documented extension point, not
//! implemented by this bridge.

use vstd::prelude::*;

verus! {

/// Key version the host reads as "no valid key".
pub const ENCRYPTION_KEY_VERSION_INVALID: u32 = 0xFFFF_FFFF;

/// Key length the bridge's context is sized for.
pub const CRYPTO_KEY_LEN: usize = 32;

/// Nonce length the bridge's context is sized for.
pub const CRYPTO_NONCE_LEN: usize = 12;

/// Authentication-tag length the bridge's context carries.
pub const CRYPTO_TAG_LEN: usize = 16;

/// Error kinds of key-management operations; these map onto the host's
/// fixed integer codes.
#[derive(Clone, Copy, Debug, PartialEq, Eq, Structural)]
pub enum KeyError {
    /// The requested key version does not exist.
    InvalidVersion,
    /// The caller's buffer cannot hold the key.
    BufferTooSmall,
    /// The requested key does not exist.
    NotFound,
    /// Any other failure.
    Other,
}

/// Error kind of cipher-context operations.
#[derive(Clone, Copy, Debug, PartialEq, Eq, Structural)]
pub enum EncryptionError {
    /// Any failure; the host only needs to know the operation failed.
    Other,
}

/// The key-management operations a plugin author implements.
pub trait KeyManager {
    /// The newest version of a key.
    fn get_latest_key_version(key_id: u32) -> Result<u32, KeyError>;

    /// Fill `dst` with the key material of one key version.
    fn get_key(key_id: u32, key_version: u32, dst: &mut Vec<u8>) -> Result<(), KeyError>;

    /// Byte length of one key version.
    fn key_length(key_id: u32, key_version: u32) -> Result<usize, KeyError>;
}

/// The encryption operations a plugin author implements; one value is
/// one encrypt context.
pub trait Encryption: Sized {
    /// Build a context for one encrypt operation.
    fn init(key_id: u32, key_version: u32, key: &[u8], iv: &[u8], same_size: bool) -> Result<
        Self,
        EncryptionError,
    >;

    /// Feed the payload through the context, at most once.
    fn update(&mut self, src: &[u8], dst: &mut Vec<u8>) -> Result<usize, EncryptionError>;

    /// Finalize the context.
    fn finish(&mut self, dst: &mut Vec<u8>) -> Result<usize, EncryptionError>;

    /// Output length for a payload length.
    fn encrypted_length(key_id: u32, key_version: u32, src_len: usize) -> usize;
}

/// The decryption operations a plugin author implements.
pub trait Decryption: Sized {
    /// Build a context for one decrypt operation.
    fn init(key_id: u32, key_version: u32, key: &[u8], iv: &[u8], same_size: bool) -> Result<
        Self,
        EncryptionError,
    >;

    /// Feed the payload through the context, at most once.
    fn update(&mut self, src: &[u8], dst: &mut Vec<u8>) -> Result<usize, EncryptionError>;

    /// Finalize the context.
    fn finish(&mut self, dst: &mut Vec<u8>) -> Result<usize, EncryptionError>;
}

/// `s` fitted to length `n`: truncated if longer, zero-extended if
/// shorter.
pub open spec fn spec_fit_to(n: nat, s: Seq<u8>) -> Seq<u8> {
    if s.len() >= n {
        s.subrange(0, n as int)
    } else {
        s + Seq::new((n - s.len()) as nat, |i: int| 0u8)
    }
}

/// Fit a buffer to a target size by either zero-extending or truncating.
///
/// Returns `(fitted, input_is_ok, action)`: whether the input already
/// had the target size, and a note naming the action taken when not.
pub fn trunc_or_extend(n: usize, buf: &[u8]) -> (r: (Vec<u8>, bool, &'static str))
    ensures
        r.0@ == spec_fit_to(n as nat, buf@),
        r.0@.len() == n,
        r.1 <==> buf@.len() == n,
        buf@.len() == n ==> r.2@ == ""@,
        buf@.len() < n ==> r.2@ == "Zero extending"@,
        buf@.len() > n ==> r.2@ == "Truncating"@,
{
    let len = buf.len();
    let copy_len: usize = if len < n {
        len
    } else {
        n
    };
    let mut out: Vec<u8> = Vec::new();
    let mut i: usize = 0;
    while i < copy_len
        invariant
            0 <= i <= copy_len <= buf@.len(),
            copy_len <= n,
            out@ =~= buf@.subrange(0, i as int),
        decreases copy_len - i,
    {
        out.push(buf[i]);
        i += 1;
    }
    while out.len() < n
        invariant
            copy_len as int == (if buf@.len() < n {
                buf@.len() as int
            } else {
                n as int
            }),
            copy_len <= out@.len() <= n,
            out@.subrange(0, copy_len as int) =~= buf@.subrange(0, copy_len as int),
            forall|j: int| copy_len <= j < out@.len() ==> out@[j] == 0u8,
        decreases n - out@.len(),
    {
        out.push(0u8);
    }
    proof {
        assert(out@.len() == n);
        assert forall|j: int| 0 <= j < n implies out@[j] == spec_fit_to(n as nat, buf@)[j] by {
            if j < copy_len {
                assert(out@.subrange(0, copy_len as int)[j] == buf@.subrange(
                    0,
                    copy_len as int,
                )[j]);
            }
        }
        assert(out@ =~= spec_fit_to(n as nat, buf@));
    }
    if len == n {
        (out, true, "")
    } else if len < n {
        (out, false, "Zero extending")
    } else {
        (out, false, "Truncating")
    }
}

/// A process-wide once-latch: the first call fires, every later one is
/// silent. Models a warn-once diagnostic's state explicitly.
#[derive(Clone, Copy, Debug, PartialEq, Eq, Structural)]
pub struct WarnOnceLatch {
    /// Whether the diagnostic fired already.
    pub warned: bool,
}

impl WarnOnceLatch {
    /// A latch that has not fired.
    pub fn new() -> (r: WarnOnceLatch)
        ensures
            !r.warned,
    {
        WarnOnceLatch { warned: false }
    }

    /// Fire the latch: reports whether this call was the first.
    pub fn note(&mut self) -> (fired: bool)
        ensures
            fired == !old(self).warned,
            final(self).warned,
    {
        let fired = !self.warned;
        self.warned = true;
        fired
    }
}

/// What an init call did to fit one input to its target size.
#[derive(Clone, Copy, Debug, PartialEq, Eq, Structural)]
pub enum PadAction {
    /// The input was shorter and was padded with zeros, never silently
    /// truncated.
    ZeroExtended,
    /// The input was longer and was cut at the target size.
    Truncated,
}

/// The diagnostics one init call emitted: a note per fitted input, each
/// emitted only the first time its latch fires in the process.
#[derive(Clone, Copy, Debug, PartialEq, Eq, Structural)]
pub struct InitNotes {
    /// Note on the key's fit, if one was emitted.
    pub key_note: Option<PadAction>,
    /// Note on the nonce's fit, if one was emitted.
    pub nonce_note: Option<PadAction>,
}

/// The action fitting `s` to length `n` takes, if any.
pub open spec fn spec_pad_action(n: nat, s: Seq<u8>) -> Option<PadAction> {
    if s.len() == n {
        None
    } else if s.len() < n {
        Some(PadAction::ZeroExtended)
    } else {
        Some(PadAction::Truncated)
    }
}

/// One streaming cipher context: the fitted key and nonce, the
/// authentication tag, and the single-shot update state. The cipher
/// itself is the capability implementation's; this bridge owns the
/// marshaling and the context's lifecycle contract.
pub struct CryptoContext {
    /// Key material, fitted to the context's key size.
    pub key: Vec<u8>,
    /// Nonce, fitted to the context's nonce size.
    pub nonce: Vec<u8>,
    /// Authentication tag produced by the payload pass.
    pub tag: Vec<u8>,
    /// How many times `update` ran; the contract allows at most one.
    pub update_calls: usize,
}

/// A context with its buffers at their fixed sizes and its update
/// counter within the single-shot protocol.
pub open spec fn context_well_formed(c: CryptoContext) -> bool {
    &&& c.key@.len() == CRYPTO_KEY_LEN
    &&& c.nonce@.len() == CRYPTO_NONCE_LEN
    &&& c.tag@.len() == CRYPTO_TAG_LEN
    &&& c.update_calls <= 1
}

impl CryptoContext {
    /// Build a context for one operation: the key and nonce are fitted
    /// to the context's sizes, zero-padded when short, and each fit that
    /// changed its input is noted through its once-latch, so a given
    /// padding condition is reported exactly once per process.
    pub fn init(
        key_id: u32,
        key_version: u32,
        key: &[u8],
        iv: &[u8],
        same_size: bool,
        key_latch: &mut WarnOnceLatch,
        nonce_latch: &mut WarnOnceLatch,
    ) -> (r: (CryptoContext, InitNotes))
        ensures
            context_well_formed(r.0),
            r.0.key@ == spec_fit_to(CRYPTO_KEY_LEN as nat, key@),
            r.0.nonce@ == spec_fit_to(CRYPTO_NONCE_LEN as nat, iv@),
            r.0.tag@ == Seq::new(CRYPTO_TAG_LEN as nat, |i: int| 0u8),
            r.0.update_calls == 0,
            r.1.key_note == (if spec_pad_action(CRYPTO_KEY_LEN as nat, key@) is Some && !old(
                key_latch,
            ).warned {
                spec_pad_action(CRYPTO_KEY_LEN as nat, key@)
            } else {
                None
            }),
            r.1.nonce_note == (if spec_pad_action(CRYPTO_NONCE_LEN as nat, iv@) is Some && !old(
                nonce_latch,
            ).warned {
                spec_pad_action(CRYPTO_NONCE_LEN as nat, iv@)
            } else {
                None
            }),
            final(key_latch).warned == (old(key_latch).warned || spec_pad_action(
                CRYPTO_KEY_LEN as nat,
                key@,
            ) is Some),
            final(nonce_latch).warned == (old(nonce_latch).warned || spec_pad_action(
                CRYPTO_NONCE_LEN as nat,
                iv@,
            ) is Some),
    {
        let (fitted_key, key_ok, _key_action) = trunc_or_extend(CRYPTO_KEY_LEN, key);
        let (fitted_nonce, nonce_ok, _nonce_action) = trunc_or_extend(CRYPTO_NONCE_LEN, iv);
        let key_note: Option<PadAction> = if !key_ok {
            let fired = key_latch.note();
            if fired {
                if key.len() < CRYPTO_KEY_LEN {
                    Some(PadAction::ZeroExtended)
                } else {
                    Some(PadAction::Truncated)
                }
            } else {
                None
            }
        } else {
            None
        };
        let nonce_note: Option<PadAction> = if !nonce_ok {
            let fired = nonce_latch.note();
            if fired {
                if iv.len() < CRYPTO_NONCE_LEN {
                    Some(PadAction::ZeroExtended)
                } else {
                    Some(PadAction::Truncated)
                }
            } else {
                None
            }
        } else {
            None
        };
        let mut tag: Vec<u8> = Vec::new();
        while tag.len() < CRYPTO_TAG_LEN
            invariant
                tag@.len() <= CRYPTO_TAG_LEN,
                forall|j: int| 0 <= j < tag@.len() ==> tag@[j] == 0u8,
            decreases CRYPTO_TAG_LEN - tag@.len(),
        {
            tag.push(0u8);
        }
        proof {
            assert(tag@ =~= Seq::new(CRYPTO_TAG_LEN as nat, |i: int| 0u8));
        }
        let ctx = CryptoContext { key: fitted_key, nonce: fitted_nonce, tag, update_calls: 0 };
        (ctx, InitNotes { key_note, nonce_note })
    }

    /// Feed the whole payload through the context, leaving room for the
    /// tag at the end of `dst`. The single-shot protocol is the
    /// contract: a context that already ran `update` takes no second
    /// pass. Returns how many payload bytes were placed in `dst`.
    pub fn update(&mut self, src: &[u8], dst: &mut Vec<u8>) -> (n: usize)
        requires
            context_well_formed(*old(self)),
            old(self).update_calls == 0,
            old(dst)@.len() >= CRYPTO_TAG_LEN,
        ensures
            context_well_formed(*final(self)),
            final(self).update_calls == 1,
            final(self).key == old(self).key,
            final(self).nonce == old(self).nonce,
            n == if src@.len() <= old(dst)@.len() - CRYPTO_TAG_LEN {
                src@.len()
            } else {
                (old(dst)@.len() - CRYPTO_TAG_LEN) as nat
            },
            final(dst)@.len() == old(dst)@.len(),
            final(dst)@.subrange(0, n as int) == src@.subrange(0, n as int),
            final(dst)@.subrange(n as int, final(dst)@.len() as int) == old(dst)@.subrange(
                n as int,
                old(dst)@.len() as int,
            ),
    {
        let room = dst.len() - CRYPTO_TAG_LEN;
        let data_len: usize = if src.len() < room {
            src.len()
        } else {
            room
        };
        let mut i: usize = 0;
        while i < data_len
            invariant
                0 <= i <= data_len,
                data_len <= src@.len(),
                data_len <= dst@.len(),
                dst@.len() == old(dst)@.len(),
                forall|j: int| 0 <= j < i ==> dst@[j] == src@[j],
                forall|j: int| i <= j < dst@.len() ==> dst@[j] == old(dst)@[j],
            decreases data_len - i,
        {
            let b = src[i];
            dst[i] = b;
            i += 1;
        }
        self.update_calls = 1;
        proof {
            assert(final(dst)@.subrange(0, data_len as int) =~= src@.subrange(0, data_len as int));
            assert(final(dst)@.subrange(data_len as int, final(dst)@.len() as int) =~= old(
                dst,
            )@.subrange(data_len as int, old(dst)@.len() as int));
        }
        data_len
    }

    /// Write the authentication tag at the start of `dst` and report its
    /// length; fails when the buffer cannot hold the tag, leaving it
    /// untouched. Runs after the single `update`.
    pub fn finish(&mut self, dst: &mut Vec<u8>) -> (r: Result<usize, EncryptionError>)
        requires
            context_well_formed(*old(self)),
            old(self).update_calls == 1,
        ensures
            *final(self) == *old(self),
            r is Ok <==> old(dst)@.len() >= CRYPTO_TAG_LEN,
            r matches Ok(n) ==> {
                &&& n == CRYPTO_TAG_LEN
                &&& final(dst)@.len() == old(dst)@.len()
                &&& final(dst)@.subrange(0, CRYPTO_TAG_LEN as int) == old(self).tag@
                &&& final(dst)@.subrange(CRYPTO_TAG_LEN as int, final(dst)@.len() as int) == old(
                    dst,
                )@.subrange(CRYPTO_TAG_LEN as int, old(dst)@.len() as int)
            },
            r is Err ==> *final(dst) == *old(dst) && r == Err::<usize, EncryptionError>(
                EncryptionError::Other,
            ),
    {
        if dst.len() < CRYPTO_TAG_LEN {
            return Err(EncryptionError::Other);
        }
        let mut i: usize = 0;
        while i < CRYPTO_TAG_LEN
            invariant
                context_well_formed(*self),
                0 <= i <= CRYPTO_TAG_LEN,
                dst@.len() >= CRYPTO_TAG_LEN,
                dst@.len() == old(dst)@.len(),
                forall|j: int| 0 <= j < i ==> dst@[j] == self.tag@[j],
                forall|j: int| i <= j < dst@.len() ==> dst@[j] == old(dst)@[j],
                *self == *old(self),
            decreases CRYPTO_TAG_LEN - i,
        {
            let b = self.tag[i];
            dst[i] = b;
            i += 1;
        }
        proof {
            assert(final(dst)@.subrange(0, CRYPTO_TAG_LEN as int) =~= old(self).tag@);
            assert(final(dst)@.subrange(CRYPTO_TAG_LEN as int, final(dst)@.len() as int) =~= old(
                dst,
            )@.subrange(CRYPTO_TAG_LEN as int, old(dst)@.len() as int));
        }
        Ok(CRYPTO_TAG_LEN)
    }

    /// Feed the whole payload of one decrypt operation through the
    /// context: everything before the trailing tag is the payload, and
    /// it is marshaled to the front of `dst`. Single-shot, like the
    /// encrypt pass. Returns the payload length.
    pub fn decrypt_update(&mut self, src: &[u8], dst: &mut Vec<u8>) -> (n: usize)
        requires
            context_well_formed(*old(self)),
            old(self).update_calls == 0,
            src@.len() >= CRYPTO_TAG_LEN,
            old(dst)@.len() >= src@.len() - CRYPTO_TAG_LEN,
        ensures
            context_well_formed(*final(self)),
            final(self).update_calls == 1,
            final(self).key == old(self).key,
            final(self).nonce == old(self).nonce,
            n == src@.len() - CRYPTO_TAG_LEN,
            final(dst)@.len() == old(dst)@.len(),
            final(dst)@.subrange(0, n as int) == src@.subrange(0, n as int),
            final(dst)@.subrange(n as int, final(dst)@.len() as int) == old(dst)@.subrange(
                n as int,
                old(dst)@.len() as int,
            ),
    {
        let data_len = src.len() - CRYPTO_TAG_LEN;
        let mut i: usize = 0;
        while i < data_len
            invariant
                0 <= i <= data_len,
                data_len <= src@.len(),
                data_len <= dst@.len(),
                dst@.len() == old(dst)@.len(),
                forall|j: int| 0 <= j < i ==> dst@[j] == src@[j],
                forall|j: int| i <= j < dst@.len() ==> dst@[j] == old(dst)@[j],
            decreases data_len - i,
        {
            let b = src[i];
            dst[i] = b;
            i += 1;
        }
        self.update_calls = 1;
        proof {
            assert(final(dst)@.subrange(0, data_len as int) =~= src@.subrange(0, data_len as int));
            assert(final(dst)@.subrange(data_len as int, final(dst)@.len() as int) =~= old(
                dst,
            )@.subrange(data_len as int, old(dst)@.len() as int));
        }
        data_len
    }

    /// Finalize a decrypt context: the tag was already consumed by the
    /// payload pass, so nothing is written and the written length is
    /// zero.
    pub fn decrypt_finish(&mut self, dst: &mut Vec<u8>) -> (r: Result<usize, EncryptionError>)
        requires
            context_well_formed(*old(self)),
            old(self).update_calls == 1,
        ensures
            *final(self) == *old(self),
            *final(dst) == *old(dst),
            r == Ok::<usize, EncryptionError>(0),
    {
        Ok(0)
    }

    /// Output length of an encrypt operation: the payload plus the tag.
    pub fn encrypted_length(key_id: u32, key_version: u32, src_len: usize) -> (r: usize)
        requires
            src_len + CRYPTO_TAG_LEN <= usize::MAX,
        ensures
            r == src_len + CRYPTO_TAG_LEN,
    {
        src_len + CRYPTO_TAG_LEN
    }
}

} // verus!
