//! Symmetric encryption of an image stream, in whole blocks.
//!
//! The cipher itself is OpenSSL's AES-128 in OCB mode. What is decided here
//! is how a stream is cut into chunks for it, and what is handed on.

use vstd::prelude::*;
use vstd::slice::{slice_subrange, slice_to_vec};
use openssl::error::ErrorStack;
use openssl::symm::{Cipher, Crypter};

verus! {

/// Length of the symmetric key, in bytes.
pub const META_SYMMETRIC_KEY_SIZE: usize = 16;

/// Length of the initialization vector of the OCB mode, in bytes.
pub const META_OCB_IV_SIZE: usize = 12;

/// Length of the authentication tag, in bytes.
pub const META_TAG_SIZE: usize = 16;

/// Size of a block of the cipher, in bytes. Data passes through in whole
/// blocks only.
pub const CRYPTO_BLOCK_SIZE: usize = 16;

/// The longest buffer the cipher takes: lengths are handed to it as 32-bit
/// signed integers.
pub const MAX_CIPHER_BUFFER: usize = 0x7fff_ffff;

/// `openssl::symm::Crypter`, a cipher in the middle of its stream. Nothing
/// is known of its state.
#[verifier::external_type_specification]
#[verifier::external_body]
pub struct ExCrypter(openssl::symm::Crypter);

/// `openssl::symm::Cipher`, the name of a cipher.
#[verifier::external_type_specification]
#[verifier::external_body]
pub struct ExCipher(openssl::symm::Cipher);

/// `openssl::error::ErrorStack`, what OpenSSL reports when it fails.
#[verifier::external_type_specification]
#[verifier::external_body]
pub struct ExErrorStack(openssl::error::ErrorStack);

/// What a stream does with the data that passes through it.
#[derive(Clone, Copy, Debug, PartialEq, Eq, Structural)]
pub enum CryptoMode {
    Encrypt,
    Decrypt,
    Unencrypted,
}

/// Why a stream gave up.
#[derive(Debug, PartialEq, Eq)]
pub enum CryptoError {
    /// The cipher turned the operation down; its own words.
    Cipher(String),
    /// The cipher put out another number of bytes than whole blocks call
    /// for.
    UnexpectedCount { expected: usize, got: usize },
}

/// Calls `Cipher::aes_128_ocb`, which names the cipher and cannot fail.
#[verifier::external_body]
fn aes_128_ocb() -> Cipher {
    Cipher::aes_128_ocb()
}

/// Calls `Crypter::new` with an initialization vector. It panics where the
/// key is shorter than the cipher's, or where a length does not fit a
/// 32-bit signed integer; `requires` leaves those out for a cipher with a
/// 16-byte key. Whether it succeeds is OpenSSL's to say.
#[verifier::external_body]
fn crypter_new(cipher: Cipher, decrypt: bool, key: &[u8], iv: &[u8]) -> (crypter: Result<Crypter, ErrorStack>)
    requires
        key.len() == META_SYMMETRIC_KEY_SIZE,
        iv.len() <= MAX_CIPHER_BUFFER,
{
    let mode = if decrypt {
        openssl::symm::Mode::Decrypt
    } else {
        openssl::symm::Mode::Encrypt
    };
    Crypter::new(cipher, mode, key, Some(iv))
}

/// Calls `Crypter::pad`, which switches padding on or off and returns
/// nothing.
#[verifier::external_body]
fn crypter_pad(crypter: &mut Crypter, padding: bool) {
    crypter.pad(padding)
}

/// Calls `Crypter::set_tag_len`. It panics where the length does not fit a
/// 32-bit signed integer.
#[verifier::external_body]
fn crypter_set_tag_len(crypter: &mut Crypter, tag_len: usize) -> (done: Result<(), ErrorStack>)
    requires
        tag_len <= MAX_CIPHER_BUFFER,
{
    crypter.set_tag_len(tag_len)
}

/// Calls `Crypter::update` with the whole of `output` as the place to
/// write to. It panics where `output` is shorter than `input` and one block
/// of the cipher together, a block of AES being 16 bytes, or where a length
/// does not fit a 32-bit signed integer. It writes into `output` and never
/// changes its length. How many bytes it wrote is OpenSSL's to say.
#[verifier::external_body]
fn crypter_update(crypter: &mut Crypter, input: &[u8], output: &mut Vec<u8>) -> (count: Result<
    usize,
    ErrorStack,
>)
    requires
        input.len() + CRYPTO_BLOCK_SIZE <= old(output).len(),
        old(output).len() <= MAX_CIPHER_BUFFER,
    ensures
        final(output).len() == old(output).len(),
    no_unwind
{
    crypter.update(input, output.as_mut_slice())
}

/// Calls `Crypter::finalize` with the whole of `output` as the place to
/// write to. It panics where `output` is shorter than one block of the
/// cipher. It never changes the length of `output`.
#[verifier::external_body]
fn crypter_finalize(crypter: &mut Crypter, output: &mut Vec<u8>) -> (count: Result<usize, ErrorStack>)
    requires
        old(output).len() >= CRYPTO_BLOCK_SIZE,
    ensures
        final(output).len() == old(output).len(),
    no_unwind
{
    crypter.finalize(output.as_mut_slice())
}

/// Calls `Crypter::get_tag` on a buffer of `tag_len` bytes; the length of
/// the buffer is the length of the tag asked for. It panics where the
/// length does not fit a 32-bit signed integer.
#[verifier::external_body]
fn crypter_get_tag(crypter: &Crypter, tag_len: usize) -> (tag: Result<Vec<u8>, ErrorStack>)
    requires
        tag_len <= MAX_CIPHER_BUFFER,
    ensures
        tag is Ok ==> tag->Ok_0.len() == tag_len,
{
    let mut tag = vec![0u8; tag_len];
    match crypter.get_tag(&mut tag) {
        Ok(()) => Ok(tag),
        Err(errors) => Err(errors),
    }
}

/// Calls `Crypter::set_tag`. It panics where the length of the tag does
/// not fit a 32-bit signed integer.
#[verifier::external_body]
fn crypter_set_tag(crypter: &mut Crypter, tag: &[u8]) -> (done: Result<(), ErrorStack>)
    requires
        tag.len() <= MAX_CIPHER_BUFFER,
    no_unwind
{
    crypter.set_tag(tag)
}

/// Formats an `ErrorStack` with its `Display`.
#[verifier::external_body]
fn error_stack_text(errors: &ErrorStack) -> String {
    format!("{}", errors)
}

fn cipher_failure(errors: ErrorStack) -> (e: CryptoError)
    ensures
        e is Cipher,
{
    CryptoError::Cipher(error_stack_text(&errors))
}

/// What a stream makes of the cipher's answer where whole blocks call for
/// `expected` bytes: the count where it is the expected one, and a failure
/// otherwise.
pub fn checked_count(expected: usize, count: Result<usize, ErrorStack>) -> (checked: Result<
    usize,
    CryptoError,
>)
    ensures
        count is Err ==> checked is Err && checked->Err_0 is Cipher,
        count is Ok && count->Ok_0 == expected ==> checked == Ok::<usize, CryptoError>(expected),
        count is Ok && count->Ok_0 != expected ==> checked == Err::<usize, CryptoError>(
            CryptoError::UnexpectedCount { expected, got: count->Ok_0 },
        ),
{
    match count {
        Err(errors) => Err(cipher_failure(errors)),
        Ok(got) => {
            if got == expected {
                Ok(got)
            } else {
                Err(CryptoError::UnexpectedCount { expected, got })
            }
        },
    }
}

/// Whether the cipher is set up to decrypt. A stream that passes data
/// through untouched never uses its cipher, and sets it up to encrypt.
pub open spec fn cipher_decrypts(mode: CryptoMode) -> bool {
    mode == CryptoMode::Decrypt
}

/// Whether a buffer of `buffer_size` bytes can serve a stream: it is a
/// whole number of blocks, at least one, and with one more block it still
/// is a length the cipher takes.
pub open spec fn usable_buffer_size(buffer_size: usize) -> bool {
    &&& 0 < buffer_size
    &&& buffer_size % CRYPTO_BLOCK_SIZE == 0
    &&& buffer_size + CRYPTO_BLOCK_SIZE <= MAX_CIPHER_BUFFER
}

/// The sum of two counts, held at the largest count where it would not fit.
pub open spec fn saturating_sum(a: u64, b: usize) -> u64 {
    if a + b > u64::MAX {
        u64::MAX
    } else {
        (a + b) as u64
    }
}

fn add_saturating(a: u64, b: usize) -> (sum: u64)
    ensures
        sum == saturating_sum(a, b),
{
    let wide: u64 = b as u64;
    if wide <= u64::MAX - a {
        a + wide
    } else {
        u64::MAX
    }
}

fn start_cipher(decrypt: bool, key: &[u8], iv: &[u8]) -> (crypter: Result<Crypter, CryptoError>)
    requires
        key.len() == META_SYMMETRIC_KEY_SIZE,
        iv.len() <= MAX_CIPHER_BUFFER,
    ensures
        crypter is Err ==> crypter->Err_0 is Cipher,
{
    match crypter_new(aes_128_ocb(), decrypt, key, iv) {
        Err(errors) => Err(cipher_failure(errors)),
        Ok(mut crypter) => {
            crypter_pad(&mut crypter, false);
            match crypter_set_tag_len(&mut crypter, META_TAG_SIZE) {
                Err(errors) => Err(cipher_failure(errors)),
                Ok(()) => Ok(crypter),
            }
        },
    }
}

/// The write side of an image pipeline: what is written to it comes out
/// encrypted, decrypted, or as it went in.
pub struct CryptoWriter {
    crypter: Crypter,
    buffer: Vec<u8>,
    buffer_size: usize,
    mode: CryptoMode,
    bytes_done: u64,
}

impl CryptoWriter {
    #[verifier::type_invariant]
    spec fn well_formed(self) -> bool {
        &&& usable_buffer_size(self.buffer_size)
        &&& self.buffer.len() == self.buffer_size + CRYPTO_BLOCK_SIZE
    }

    /// What the stream does with its data.
    pub closed spec fn mode_of(&self) -> CryptoMode {
        self.mode
    }

    /// The most that is handed to the cipher at once.
    pub closed spec fn buffer_size_of(&self) -> usize {
        self.buffer_size
    }

    /// How many bytes have passed through the cipher.
    pub closed spec fn bytes_done_of(&self) -> u64 {
        self.bytes_done
    }

    /// Sets up a stream with the given key and initialization vector.
    /// `buffer_size` is the longest chunk that is handed to the cipher at
    /// once.
    pub fn new(key: &[u8], iv: &[u8], mode: CryptoMode, buffer_size: usize) -> (writer: Result<
        CryptoWriter,
        CryptoError,
    >)
        requires
            key.len() == META_SYMMETRIC_KEY_SIZE,
            iv.len() == META_OCB_IV_SIZE,
            usable_buffer_size(buffer_size),
        ensures
            writer is Ok ==> {
                &&& writer->Ok_0.mode_of() == mode
                &&& writer->Ok_0.buffer_size_of() == buffer_size
                &&& writer->Ok_0.bytes_done_of() == 0
            },
            writer is Err ==> writer->Err_0 is Cipher,
    {
        let decrypt = match mode {
            CryptoMode::Decrypt => true,
            _ => false,
        };
        match start_cipher(decrypt, key, iv) {
            Err(e) => Err(e),
            Ok(crypter) => Ok(
                CryptoWriter {
                    crypter,
                    buffer: vec![0u8; buffer_size + CRYPTO_BLOCK_SIZE],
                    buffer_size,
                    mode,
                    bytes_done: 0,
                },
            ),
        }
    }

    /// What the stream does with its data.
    pub fn mode(&self) -> (mode: CryptoMode)
        ensures
            mode == self.mode_of(),
    {
        self.mode
    }

    /// How many bytes have passed through the cipher.
    pub fn bytes_done(&self) -> (count: u64)
        ensures
            count == self.bytes_done_of(),
    {
        self.bytes_done
    }

    /// Passes `buf` through the stream and answers with the bytes to hand
    /// on to the destination, as many as went in. A stream that does not
    /// encrypt hands `buf` on as it is. Otherwise `buf` goes through the
    /// cipher in chunks of at most the buffer size.
    pub fn write(&mut self, buf: &[u8]) -> (written: Result<Vec<u8>, CryptoError>)
        requires
            buf.len() % CRYPTO_BLOCK_SIZE == 0,
        ensures
            final(self).mode_of() == old(self).mode_of(),
            final(self).buffer_size_of() == old(self).buffer_size_of(),
            old(self).mode_of() == CryptoMode::Unencrypted ==> {
                &&& written is Ok
                &&& written->Ok_0@ == buf@
                &&& final(self).bytes_done_of() == old(self).bytes_done_of()
            },
            written is Ok ==> written->Ok_0.len() == buf.len(),
            written is Ok && old(self).mode_of() != CryptoMode::Unencrypted ==> final(self).bytes_done_of()
                == saturating_sum(old(self).bytes_done_of(), buf.len()),
    {
        proof {
            use_type_invariant(&*self);
        }
        match self.mode {
            CryptoMode::Unencrypted => {
                return Ok(slice_to_vec(buf));
            },
            _ => {},
        }
        let length = buf.len();
        let ghost done_before = self.bytes_done;
        let mut out: Vec<u8> = Vec::new();
        let mut offset: usize = 0;
        while offset < length
            invariant
                length == buf.len(),
                offset <= length,
                offset % CRYPTO_BLOCK_SIZE == 0,
                length % CRYPTO_BLOCK_SIZE == 0,
                out.len() == offset,
                usable_buffer_size(self.buffer_size),
                self.buffer.len() == self.buffer_size + CRYPTO_BLOCK_SIZE,
                self.mode == old(self).mode,
                self.mode != CryptoMode::Unencrypted,
                self.buffer_size == old(self).buffer_size,
                self.bytes_done == saturating_sum(done_before, offset),
            decreases length - offset,
        {
            let size_this_round = if self.buffer_size < length - offset {
                self.buffer_size
            } else {
                length - offset
            };
            let src_end = offset + size_this_round;
            let updated = crypter_update(
                &mut self.crypter,
                slice_subrange(buf, offset, src_end),
                &mut self.buffer,
            );
            let crypto_count = match checked_count(size_this_round, updated) {
                Ok(count) => count,
                Err(e) => {
                    return Err(e);
                },
            };
            out.extend_from_slice(slice_subrange(self.buffer.as_slice(), 0, crypto_count));
            offset = offset + crypto_count;
            self.bytes_done = add_saturating(self.bytes_done, crypto_count);
        }
        Ok(out)
    }

    /// Closes the stream and answers with the authentication tag. To be
    /// called once, after all data has been written.
    pub fn get_tag(&mut self) -> (tag: Result<Vec<u8>, CryptoError>)
        ensures
            tag is Ok ==> tag->Ok_0.len() == META_TAG_SIZE,
            tag is Err ==> tag->Err_0 is Cipher || miscounted(tag->Err_0, 0),
            final(self).mode_of() == old(self).mode_of(),
            final(self).buffer_size_of() == old(self).buffer_size_of(),
            final(self).bytes_done_of() == old(self).bytes_done_of(),
    {
        proof {
            use_type_invariant(&*self);
        }
        let mut unused: Vec<u8> = vec![0u8; CRYPTO_BLOCK_SIZE];
        let finalized = crypter_finalize(&mut self.crypter, &mut unused);
        match checked_count(0, finalized) {
            Err(e) => Err(e),
            Ok(_) => match crypter_get_tag(&self.crypter, META_TAG_SIZE) {
                Err(errors) => Err(cipher_failure(errors)),
                Ok(tag) => Ok(tag),
            },
        }
    }
}

/// What the caller of a reading stream has to do next.
#[derive(Debug, PartialEq, Eq)]
pub enum ReadAction {
    /// Hand these bytes to the requester; they are the next of the stream.
    Deliver(Vec<u8>),
    /// Read up to `size` bytes from the source and hand them to
    /// [`CryptoReader::absorb`]. A source that has no more ends the read.
    ReadSource { size: usize },
}

/// The read side of an image pipeline: what is read through it comes out
/// encrypted, decrypted, or as it was.
///
/// The cipher wants one block of room more than it is given data, so the
/// last block of every chunk is kept back and delivered first when more is
/// asked for.
pub struct CryptoReader {
    crypter: Crypter,
    buffer_size: usize,
    extra: Vec<u8>,
    extra_offset: usize,
    extra_size: usize,
    mode: CryptoMode,
    bytes_done: u64,
}

impl CryptoReader {
    #[verifier::type_invariant]
    spec fn well_formed(self) -> bool {
        &&& usable_buffer_size(self.buffer_size)
        &&& self.extra.len() == self.buffer_size + CRYPTO_BLOCK_SIZE
        &&& self.extra_offset <= self.extra_size <= self.extra.len()
    }

    /// What the stream does with its data.
    pub closed spec fn mode_of(&self) -> CryptoMode {
        self.mode
    }

    /// The most that is read from the source at once.
    pub closed spec fn buffer_size_of(&self) -> usize {
        self.buffer_size
    }

    /// The bytes that were kept back and are yet to be delivered.
    pub closed spec fn kept_back(&self) -> Seq<u8> {
        self.extra@.subrange(self.extra_offset as int, self.extra_size as int)
    }

    /// How many bytes have been delivered from the cipher.
    pub closed spec fn bytes_done_of(&self) -> u64 {
        self.bytes_done
    }

    /// Sets up a stream with the given key and initialization vector.
    /// `buffer_size` is the most that is read from the source at once.
    pub fn new(key: &[u8], iv: &[u8], mode: CryptoMode, buffer_size: usize) -> (reader: Result<
        CryptoReader,
        CryptoError,
    >)
        requires
            key.len() == META_SYMMETRIC_KEY_SIZE,
            iv.len() <= MAX_CIPHER_BUFFER,
            usable_buffer_size(buffer_size),
        ensures
            reader is Ok ==> {
                &&& reader->Ok_0.mode_of() == mode
                &&& reader->Ok_0.buffer_size_of() == buffer_size
                &&& reader->Ok_0.kept_back().len() == 0
                &&& reader->Ok_0.bytes_done_of() == 0
            },
            reader is Err ==> reader->Err_0 is Cipher,
    {
        let decrypt = match mode {
            CryptoMode::Decrypt => true,
            _ => false,
        };
        match start_cipher(decrypt, key, iv) {
            Err(e) => Err(e),
            Ok(crypter) => Ok(
                CryptoReader {
                    crypter,
                    buffer_size,
                    extra: vec![0u8; buffer_size + CRYPTO_BLOCK_SIZE],
                    extra_offset: 0,
                    extra_size: 0,
                    mode,
                    bytes_done: 0,
                },
            ),
        }
    }

    /// What the stream does with its data.
    pub fn mode(&self) -> (mode: CryptoMode)
        ensures
            mode == self.mode_of(),
    {
        self.mode
    }

    /// How many bytes have been delivered from the cipher.
    pub fn bytes_done(&self) -> (count: u64)
        ensures
            count == self.bytes_done_of(),
    {
        self.bytes_done
    }

    /// How many bytes are kept back and yet to be delivered.
    pub fn pending(&self) -> (count: usize)
        ensures
            count == self.kept_back().len(),
    {
        proof {
            use_type_invariant(self);
        }
        self.extra_size - self.extra_offset
    }

    /// Decides how to go on with a read that still wants `remaining`
    /// bytes: what is kept back is delivered first, as far as it is wanted;
    /// only then is the source read, for at most the buffer size.
    pub fn next(&mut self, remaining: usize) -> (action: ReadAction)
        ensures
            final(self).mode_of() == old(self).mode_of(),
            final(self).buffer_size_of() == old(self).buffer_size_of(),
            old(self).kept_back().len() > 0 ==> {
                let count = if old(self).kept_back().len() <= remaining {
                    old(self).kept_back().len() as int
                } else {
                    remaining as int
                };
                &&& action matches ReadAction::Deliver(bytes)
                &&& bytes@ == old(self).kept_back().subrange(0, count)
                &&& final(self).kept_back() == old(self).kept_back().subrange(
                    count,
                    old(self).kept_back().len() as int,
                )
                &&& final(self).bytes_done_of() == saturating_sum(old(self).bytes_done_of(), count as usize)
            },
            old(self).kept_back().len() == 0 ==> {
                &&& action == ReadAction::ReadSource {
                    size: if old(self).buffer_size_of() <= remaining {
                        old(self).buffer_size_of()
                    } else {
                        remaining
                    },
                }
                &&& final(self).kept_back().len() == 0
                &&& final(self).bytes_done_of() == old(self).bytes_done_of()
            },
    {
        proof {
            use_type_invariant(&*self);
        }
        if self.extra_offset < self.extra_size {
            let pending = self.extra_size - self.extra_offset;
            let extra_size = if pending <= remaining {
                pending
            } else {
                remaining
            };
            let src_end = self.extra_offset + extra_size;
            let bytes = slice_to_vec(slice_subrange(self.extra.as_slice(), self.extra_offset, src_end));
            proof {
                assert(self.extra@.subrange(src_end as int, self.extra_size as int) =~= old(
                    self,
                ).kept_back().subrange(extra_size as int, pending as int));
            }
            self.extra_offset = src_end;
            self.bytes_done = add_saturating(self.bytes_done, extra_size);
            ReadAction::Deliver(bytes)
        } else {
            let size = if self.buffer_size <= remaining {
                self.buffer_size
            } else {
                remaining
            };
            ReadAction::ReadSource { size }
        }
    }

    /// Takes what the source gave, in whole blocks, and answers with the
    /// bytes to deliver. All but the last block go through the cipher
    /// straight away; the last block goes through after them and what
    /// comes of it is kept back. Where the cipher fails or miscounts,
    /// nothing is delivered and nothing is kept back.
    pub fn absorb(&mut self, source: &[u8]) -> (delivered: Result<Vec<u8>, CryptoError>)
        requires
            source.len() > 0,
            source.len() % CRYPTO_BLOCK_SIZE == 0,
            source.len() <= old(self).buffer_size_of(),
            old(self).kept_back().len() == 0,
        ensures
            final(self).mode_of() == old(self).mode_of(),
            final(self).buffer_size_of() == old(self).buffer_size_of(),
            delivered is Ok ==> {
                &&& delivered->Ok_0.len() == source.len() - CRYPTO_BLOCK_SIZE
                &&& final(self).kept_back().len() == CRYPTO_BLOCK_SIZE
                &&& final(self).bytes_done_of() == saturating_sum(
                    old(self).bytes_done_of(),
                    delivered->Ok_0.len(),
                )
            },
            delivered is Err ==> {
                &&& final(self).kept_back().len() == 0
                &&& final(self).bytes_done_of() == old(self).bytes_done_of()
                &&& delivered->Err_0 is Cipher || miscounted(
                    delivered->Err_0,
                    (source.len() - CRYPTO_BLOCK_SIZE) as usize,
                ) || miscounted(delivered->Err_0, CRYPTO_BLOCK_SIZE)
            },
    {
        proof {
            use_type_invariant(&*self);
        }
        let bytes_read = source.len();
        let direct_count = bytes_read - CRYPTO_BLOCK_SIZE;
        let mut direct: Vec<u8> = vec![0u8; bytes_read];
        let updated = crypter_update(&mut self.crypter, slice_subrange(source, 0, direct_count), &mut direct);
        let count = match checked_count(direct_count, updated) {
            Ok(count) => count,
            Err(e) => {
                return Err(e);
            },
        };
        direct.truncate(count);
        let kept = crypter_update(
            &mut self.crypter,
            slice_subrange(source, direct_count, bytes_read),
            &mut self.extra,
        );
        match checked_count(CRYPTO_BLOCK_SIZE, kept) {
            Ok(size) => {
                self.extra_offset = 0;
                self.extra_size = size;
                self.bytes_done = add_saturating(self.bytes_done, count);
                Ok(direct)
            },
            Err(e) => {
                self.extra_offset = 0;
                self.extra_size = 0;
                Err(e)
            },
        }
    }

    /// Closes the stream and checks the authentication tag against what
    /// has passed through: `Ok` tells that the data is what was encrypted.
    /// A stream that does not decrypt has nothing to check. To be called
    /// once, after all data has been read.
    pub fn check_tag(&mut self, tag: &[u8]) -> (checked: Result<(), CryptoError>)
        requires
            tag.len() == META_TAG_SIZE,
        ensures
            old(self).mode_of() == CryptoMode::Unencrypted ==> checked is Ok,
            checked is Err ==> checked->Err_0 is Cipher || miscounted(checked->Err_0, 0),
            final(self).mode_of() == old(self).mode_of(),
            final(self).buffer_size_of() == old(self).buffer_size_of(),
            final(self).kept_back() == old(self).kept_back(),
            final(self).bytes_done_of() == old(self).bytes_done_of(),
    {
        proof {
            use_type_invariant(&*self);
        }
        match self.mode {
            CryptoMode::Unencrypted => {
                return Ok(());
            },
            _ => {},
        }
        let mut unused: Vec<u8> = vec![0u8; CRYPTO_BLOCK_SIZE];
        match crypter_set_tag(&mut self.crypter, tag) {
            Err(errors) => Err(cipher_failure(errors)),
            Ok(()) => {
                let finalized = crypter_finalize(&mut self.crypter, &mut unused);
                match checked_count(0, finalized) {
                    Err(e) => Err(e),
                    Ok(_) => Ok(()),
                }
            },
        }
    }
}

/// Whether `e` tells that the cipher put out another number of bytes than
/// the `expected` one.
pub open spec fn miscounted(e: CryptoError, expected: usize) -> bool {
    e matches CryptoError::UnexpectedCount { expected: wanted, got } && wanted == expected && got
        != expected
}

} // verus!
