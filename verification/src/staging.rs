//! Byte images of the kernel structures that are ferried through the staging
//! page, and their transfer in machine words.
//!
//! The staging page is written and read eight bytes at a time. An image is
//! the sequence of bytes that a structure occupies in the tracee's memory;
//! the words of an image are its consecutive groups of eight bytes, read as
//! little-endian numbers. Bytes beyond the last full word are not
//! transferred.

use vstd::prelude::*;
use crate::abi::{AF_UNIX, SCM_RIGHTS, SOL_SOCKET};

verus! {

/// Offset of the message header in the staging page.
pub const MSGHDR_OFFSET: u64 = 0x000;

/// Offset of the message payload in the staging page.
pub const PAYLOAD_OFFSET: u64 = 0x100;

/// Offset of the I/O vector in the staging page.
pub const IOVEC_OFFSET: u64 = 0x200;

/// Offset of the control message in the staging page.
pub const CONTROL_OFFSET: u64 = 0x300;

/// Length of the message payload in bytes.
pub const PAYLOAD_LEN: u64 = 4;

/// `cmsg_len` of a control message that carries one file descriptor.
pub const CMSG_LEN_ONE_FD: u64 = 20;

/// Space that a control message with one file descriptor takes.
pub const CMSG_SPACE_ONE_FD: u64 = 24;

/// Capacity of `sun_path` in a `sockaddr_un`.
pub const SUN_PATH_MAX: usize = 108;

/// Size of a `sockaddr_un` in bytes.
pub const SOCKADDR_UN_SIZE: usize = 110;

/// The two bytes of `v`, least significant first.
pub open spec fn le16(v: u16) -> Seq<u8> {
    seq![(v % 0x100) as u8, (v / 0x100) as u8]
}

/// The four bytes of `v`, least significant first.
pub open spec fn le32(v: u32) -> Seq<u8> {
    seq![
        (v % 0x100) as u8,
        (v / 0x100 % 0x100) as u8,
        (v / 0x1_0000 % 0x100) as u8,
        (v / 0x100_0000) as u8,
    ]
}

/// The eight bytes of `v`, least significant first.
pub open spec fn le64(v: u64) -> Seq<u8> {
    seq![
        (v % 0x100) as u8,
        (v / 0x100 % 0x100) as u8,
        (v / 0x1_0000 % 0x100) as u8,
        (v / 0x100_0000 % 0x100) as u8,
        (v / 0x1_0000_0000 % 0x100) as u8,
        (v / 0x100_0000_0000 % 0x100) as u8,
        (v / 0x1_0000_0000_0000 % 0x100) as u8,
        (v / 0x100_0000_0000_0000) as u8,
    ]
}

/// `n` zero bytes.
pub open spec fn zeros(n: nat) -> Seq<u8> {
    Seq::new(n, |i: int| 0u8)
}

/// A 32-bit field and the four bytes of padding that align what follows.
pub open spec fn padded32(v: u32) -> Seq<u8> {
    le32(v) + zeros(4)
}

/// Two 32-bit fields, one after the other.
pub open spec fn pair32(first: u32, second: u32) -> Seq<u8> {
    le32(first) + le32(second)
}

/// The number whose little-endian bytes are the first eight of `bytes`.
#[verifier::opaque]
pub open spec fn word_of(bytes: Seq<u8>) -> u64
    recommends
        bytes.len() >= 8,
{
    (bytes[0] as int + bytes[1] as int * 0x100 + bytes[2] as int * 0x1_0000 + bytes[3] as int
        * 0x100_0000 + bytes[4] as int * 0x1_0000_0000 + bytes[5] as int * 0x100_0000_0000
        + bytes[6] as int * 0x1_0000_0000_0000 + bytes[7] as int * 0x100_0000_0000_0000) as u64
}

/// The words in which an image is transferred: word `i` holds bytes
/// `8 * i .. 8 * i + 8`, and there are as many words as fit.
pub open spec fn words_of(image: Seq<u8>) -> Seq<u64> {
    Seq::new((image.len() / 8) as nat, |i: int| word_of(image.subrange(8 * i, 8 * i + 8)))
}

/// Image of a `uffdio_api`: three 64-bit fields.
pub open spec fn uffdio_api_image(api: u64, features: u64, ioctls: u64) -> Seq<u8> {
    le64(api) + le64(features) + le64(ioctls)
}

/// Image of a `sockaddr_un` of family `AF_UNIX` whose path holds the bytes
/// of `path`, the rest of the path zero.
pub open spec fn sockaddr_un_image(path: Seq<u8>) -> Seq<u8>
    recommends
        path.len() <= SUN_PATH_MAX,
{
    le16(AF_UNIX as u16) + path + zeros((SUN_PATH_MAX - path.len()) as nat)
}

/// Length of the address handed to `connect` for a path of `path_len`
/// bytes, its terminator included: the offset of the path plus the path.
pub open spec fn sockaddr_un_len(path_len: nat) -> nat {
    2 + path_len
}

/// Image of an `iovec`.
pub open spec fn iovec_image(base: u64, len: u64) -> Seq<u8> {
    le64(base) + le64(len)
}

/// Image of a control message that carries the file descriptor `fd` as
/// `SCM_RIGHTS`: the header, the descriptor, and padding to a full word.
pub open spec fn control_image(fd: u32) -> Seq<u8> {
    le64(CMSG_LEN_ONE_FD) + pair32(SOL_SOCKET, SCM_RIGHTS) + padded32(fd)
}

/// Image of a `msghdr` without a name and without flags.
pub open spec fn msghdr_image(iov: u64, iovlen: u64, control: u64, controllen: u64) -> Seq<u8> {
    le64(0) + padded32(0) + le64(iov) + le64(iovlen) + le64(control) + le64(controllen)
        + padded32(0)
}

/// Appends the little-endian bytes of `v`.
pub fn push_le64(buf: &mut Vec<u8>, v: u64)
    ensures
        final(buf)@ == old(buf)@ + le64(v),
{
    buf.push((v % 0x100) as u8);
    buf.push((v / 0x100 % 0x100) as u8);
    buf.push((v / 0x1_0000 % 0x100) as u8);
    buf.push((v / 0x100_0000 % 0x100) as u8);
    buf.push((v / 0x1_0000_0000 % 0x100) as u8);
    buf.push((v / 0x100_0000_0000 % 0x100) as u8);
    buf.push((v / 0x1_0000_0000_0000 % 0x100) as u8);
    buf.push((v / 0x100_0000_0000_0000) as u8);
    assert(buf@ =~= old(buf)@ + le64(v));
}

/// Appends the little-endian bytes of `v`.
pub fn push_le32(buf: &mut Vec<u8>, v: u32)
    ensures
        final(buf)@ == old(buf)@ + le32(v),
{
    buf.push((v % 0x100) as u8);
    buf.push((v / 0x100 % 0x100) as u8);
    buf.push((v / 0x1_0000 % 0x100) as u8);
    buf.push((v / 0x100_0000) as u8);
    assert(buf@ =~= old(buf)@ + le32(v));
}

/// Appends the little-endian bytes of `v`.
pub fn push_le16(buf: &mut Vec<u8>, v: u16)
    ensures
        final(buf)@ == old(buf)@ + le16(v),
{
    buf.push((v % 0x100) as u8);
    buf.push((v / 0x100) as u8);
    assert(buf@ =~= old(buf)@ + le16(v));
}

/// Appends `n` zero bytes.
pub fn push_zeros(buf: &mut Vec<u8>, n: usize)
    ensures
        final(buf)@ == old(buf)@ + zeros(n as nat),
{
    let mut i: usize = 0;
    while i < n
        invariant
            i <= n,
            buf@ == old(buf)@ + zeros(i as nat),
        decreases n - i,
    {
        buf.push(0u8);
        i = i + 1;
        assert(buf@ =~= old(buf)@ + zeros(i as nat));
    }
}

/// Reads the word that starts at byte `start` of `bytes`.
pub fn word_at(bytes: &Vec<u8>, start: usize) -> (word: u64)
    requires
        start + 8 <= bytes@.len(),
    ensures
        word == word_of(bytes@.subrange(start as int, start + 8)),
{
    let len: usize = bytes.len();
    assert(start + 8 <= len);
    proof {
        reveal(word_of);
    }
    let b0: u64 = bytes[start] as u64;
    let b1: u64 = bytes[start + 1] as u64;
    let b2: u64 = bytes[start + 2] as u64;
    let b3: u64 = bytes[start + 3] as u64;
    let b4: u64 = bytes[start + 4] as u64;
    let b5: u64 = bytes[start + 5] as u64;
    let b6: u64 = bytes[start + 6] as u64;
    let b7: u64 = bytes[start + 7] as u64;
    b0 + b1 * 0x100 + b2 * 0x1_0000 + b3 * 0x100_0000 + b4 * 0x1_0000_0000 + b5
        * 0x100_0000_0000 + b6 * 0x1_0000_0000_0000 + b7 * 0x100_0000_0000_0000
}

/// The words in which `image` is written to the staging page.
pub fn image_words(image: &Vec<u8>) -> (words: Vec<u64>)
    ensures
        words@ == words_of(image@),
{
    let count: usize = image.len() / 8;
    let mut words: Vec<u64> = Vec::new();
    let mut i: usize = 0;
    while i < count
        invariant
            count == image@.len() / 8,
            image@.len() <= usize::MAX,
            i <= count,
            words@.len() == i,
            forall|k: int| 0 <= k < i ==> words@[k] == word_of(#[trigger] image@.subrange(8 * k, 8 * k + 8)),
        decreases count - i,
    {
        assert(8 * i + 8 <= image@.len());
        let w: u64 = word_at(image, 8 * i);
        words.push(w);
        i = i + 1;
    }
    assert(words@ =~= words_of(image@));
    words
}

/// Builds the image of a `uffdio_api`.
pub fn build_uffdio_api(api: u64, features: u64, ioctls: u64) -> (image: Vec<u8>)
    ensures
        image@ == uffdio_api_image(api, features, ioctls),
{
    let mut image: Vec<u8> = Vec::new();
    push_le64(&mut image, api);
    push_le64(&mut image, features);
    push_le64(&mut image, ioctls);
    assert(image@ =~= uffdio_api_image(api, features, ioctls));
    image
}

/// Builds the image of the `sockaddr_un` for `path`.
pub fn build_sockaddr_un(path: &Vec<u8>) -> (image: Vec<u8>)
    requires
        path@.len() <= SUN_PATH_MAX,
    ensures
        image@ == sockaddr_un_image(path@),
        image@.len() == SOCKADDR_UN_SIZE,
{
    let mut image: Vec<u8> = Vec::new();
    push_le16(&mut image, AF_UNIX as u16);
    let mut i: usize = 0;
    while i < path.len()
        invariant
            i <= path@.len(),
            image@ == le16(AF_UNIX as u16) + path@.subrange(0, i as int),
        decreases path@.len() - i,
    {
        image.push(path[i]);
        i = i + 1;
        assert(image@ =~= le16(AF_UNIX as u16) + path@.subrange(0, i as int));
    }
    assert(path@.subrange(0, path@.len() as int) =~= path@);
    push_zeros(&mut image, SUN_PATH_MAX - path.len());
    image
}

/// Builds the image of an `iovec`.
pub fn build_iovec(base: u64, len: u64) -> (image: Vec<u8>)
    ensures
        image@ == iovec_image(base, len),
{
    let mut image: Vec<u8> = Vec::new();
    push_le64(&mut image, base);
    push_le64(&mut image, len);
    assert(image@ =~= iovec_image(base, len));
    image
}

/// Builds the image of the control message that carries `fd`.
pub fn build_control(fd: u32) -> (image: Vec<u8>)
    ensures
        image@ == control_image(fd),
{
    let mut image: Vec<u8> = Vec::new();
    push_le64(&mut image, CMSG_LEN_ONE_FD);
    push_le32(&mut image, SOL_SOCKET);
    push_le32(&mut image, SCM_RIGHTS);
    push_le32(&mut image, fd);
    push_zeros(&mut image, 4);
    assert(image@ =~= control_image(fd));
    image
}

/// Builds the image of a `msghdr` without a name and without flags.
pub fn build_msghdr(iov: u64, iovlen: u64, control: u64, controllen: u64) -> (image: Vec<u8>)
    ensures
        image@ == msghdr_image(iov, iovlen, control, controllen),
{
    let mut image: Vec<u8> = Vec::new();
    push_le64(&mut image, 0);
    push_le32(&mut image, 0);
    push_zeros(&mut image, 4);
    push_le64(&mut image, iov);
    push_le64(&mut image, iovlen);
    push_le64(&mut image, control);
    push_le64(&mut image, controllen);
    push_le32(&mut image, 0);
    push_zeros(&mut image, 4);
    assert(image@ =~= msghdr_image(iov, iovlen, control, controllen));
    image
}

/// Eight little-endian bytes read back as a word give the number they were
/// made from.
pub proof fn lemma_word_of_le64(v: u64)
    ensures
        le64(v).len() == 8,
        word_of(le64(v)) == v,
{
    reveal(word_of);
    assert(v == (v % 0x100) + (v / 0x100 % 0x100) * 0x100 + (v / 0x1_0000 % 0x100) * 0x1_0000 + (v
        / 0x100_0000 % 0x100) * 0x100_0000 + (v / 0x1_0000_0000 % 0x100) * 0x1_0000_0000 + (v
        / 0x100_0000_0000 % 0x100) * 0x100_0000_0000 + (v / 0x1_0000_0000_0000 % 0x100)
        * 0x1_0000_0000_0000 + (v / 0x100_0000_0000_0000) * 0x100_0000_0000_0000)
        by (bit_vector);
}

/// Two 32-bit fields that share a word: the first is the low half.
pub proof fn lemma_word_of_pair32(low: u32, high: u32)
    ensures
        pair32(low, high).len() == 8,
        word_of(pair32(low, high)) == low + high * 0x1_0000_0000,
{
    reveal(word_of);
    assert(low == (low % 0x100) + (low / 0x100 % 0x100) * 0x100 + (low / 0x1_0000 % 0x100)
        * 0x1_0000 + (low / 0x100_0000) * 0x100_0000) by (bit_vector);
    assert(high == (high % 0x100) + (high / 0x100 % 0x100) * 0x100 + (high / 0x1_0000 % 0x100)
        * 0x1_0000 + (high / 0x100_0000) * 0x100_0000) by (bit_vector);
}

/// A padded 32-bit field read as a word gives the field.
pub proof fn lemma_word_of_padded32(v: u32)
    ensures
        padded32(v).len() == 8,
        word_of(padded32(v)) == v,
{
    reveal(word_of);
    assert(v == (v % 0x100) + (v / 0x100 % 0x100) * 0x100 + (v / 0x1_0000 % 0x100) * 0x1_0000 + (v
        / 0x100_0000) * 0x100_0000) by (bit_vector);
}

/// An image of eight bytes is transferred as one word.
pub proof fn lemma_words_of_one(chunk: Seq<u8>)
    requires
        chunk.len() == 8,
    ensures
        words_of(chunk) == seq![word_of(chunk)],
{
    assert(chunk.subrange(0, 8) =~= chunk);
    assert(words_of(chunk) =~= seq![word_of(chunk)]);
}

/// Eight more bytes behind a whole number of words add one word.
pub proof fn lemma_words_of_push(head: Seq<u8>, chunk: Seq<u8>)
    requires
        head.len() % 8 == 0,
        chunk.len() == 8,
    ensures
        (head + chunk).len() % 8 == 0,
        words_of(head + chunk) == words_of(head).push(word_of(chunk)),
{
    let whole = head + chunk;
    let n = head.len() / 8;
    assert(whole.len() / 8 == n + 1);
    assert forall|i: int| 0 <= i < n + 1 implies words_of(whole)[i] == words_of(head).push(
        word_of(chunk),
    )[i] by {
        if i < n {
            assert(whole.subrange(8 * i, 8 * i + 8) =~= head.subrange(8 * i, 8 * i + 8));
        } else {
            assert(whole.subrange(8 * i, 8 * i + 8) =~= chunk);
        }
    }
    assert(words_of(whole) =~= words_of(head).push(word_of(chunk)));
}

/// The words of a `uffdio_api` image are its three fields.
pub proof fn lemma_uffdio_api_words(api: u64, features: u64, ioctls: u64)
    ensures
        words_of(uffdio_api_image(api, features, ioctls)) == seq![api, features, ioctls],
{
    let part1 = le64(api);
    let part2 = part1 + le64(features);
    let part3 = part2 + le64(ioctls);
    assert(words_of(part1) == seq![api]) by {
        lemma_word_of_le64(api);
        lemma_words_of_one(part1);
    }
    assert(words_of(part2) == seq![api, features] && part2.len() % 8 == 0) by {
        lemma_word_of_le64(features);
        lemma_words_of_push(part1, le64(features));
        assert(seq![api].push(features) =~= seq![api, features]);
    }
    assert(words_of(part3) == seq![api, features, ioctls]) by {
        lemma_word_of_le64(ioctls);
        lemma_words_of_push(part2, le64(ioctls));
        assert(seq![api, features].push(ioctls) =~= seq![api, features, ioctls]);
    }
}

/// The words of an `iovec` image are its base and its length.
pub proof fn lemma_iovec_words(base: u64, len: u64)
    ensures
        words_of(iovec_image(base, len)) == seq![base, len],
{
    let part1 = le64(base);
    assert(words_of(part1) == seq![base]) by {
        lemma_word_of_le64(base);
        lemma_words_of_one(part1);
    }
    lemma_word_of_le64(len);
    lemma_words_of_push(part1, le64(len));
    assert(seq![base].push(len) =~= seq![base, len]);
}

/// The words of a control message: its length, then level and type in one
/// word, then the file descriptor.
pub proof fn lemma_control_words(fd: u32)
    ensures
        words_of(control_image(fd)) == seq![
            CMSG_LEN_ONE_FD,
            (SOL_SOCKET + SCM_RIGHTS * 0x1_0000_0000) as u64,
            fd as u64,
        ],
{
    let level_type: u64 = (SOL_SOCKET + SCM_RIGHTS * 0x1_0000_0000) as u64;
    let part1 = le64(CMSG_LEN_ONE_FD);
    let part2 = part1 + pair32(SOL_SOCKET, SCM_RIGHTS);
    let part3 = part2 + padded32(fd);
    assert(words_of(part1) == seq![CMSG_LEN_ONE_FD]) by {
        lemma_word_of_le64(CMSG_LEN_ONE_FD);
        lemma_words_of_one(part1);
    }
    assert(words_of(part2) == seq![CMSG_LEN_ONE_FD, level_type] && part2.len() % 8 == 0) by {
        lemma_word_of_pair32(SOL_SOCKET, SCM_RIGHTS);
        lemma_words_of_push(part1, pair32(SOL_SOCKET, SCM_RIGHTS));
        assert(seq![CMSG_LEN_ONE_FD].push(level_type) =~= seq![CMSG_LEN_ONE_FD, level_type]);
    }
    assert(words_of(part3) == seq![CMSG_LEN_ONE_FD, level_type, fd as u64]) by {
        lemma_word_of_padded32(fd);
        lemma_words_of_push(part2, padded32(fd));
        assert(seq![CMSG_LEN_ONE_FD, level_type].push(fd as u64) =~= seq![
            CMSG_LEN_ONE_FD,
            level_type,
            fd as u64,
        ]);
    }
}

/// The words of a `msghdr` image: no name, the I/O vector and its count, the
/// control buffer and its length, no flags.
pub proof fn lemma_msghdr_words(iov: u64, iovlen: u64, control: u64, controllen: u64)
    ensures
        words_of(msghdr_image(iov, iovlen, control, controllen)) == seq![
            0u64,
            0u64,
            iov,
            iovlen,
            control,
            controllen,
            0u64,
        ],
{
    let part1 = le64(0);
    let part2 = part1 + padded32(0);
    let part3 = part2 + le64(iov);
    let part4 = part3 + le64(iovlen);
    let part5 = part4 + le64(control);
    let part6 = part5 + le64(controllen);
    let part7 = part6 + padded32(0);
    assert(words_of(part1) == seq![0u64]) by {
        lemma_word_of_le64(0);
        lemma_words_of_one(part1);
    }
    assert(words_of(part2) == seq![0u64, 0u64] && part2.len() % 8 == 0) by {
        lemma_word_of_padded32(0);
        lemma_words_of_push(part1, padded32(0));
        assert(seq![0u64].push(0u64) =~= seq![0u64, 0u64]);
    }
    assert(words_of(part3) == seq![0u64, 0u64, iov] && part3.len() % 8 == 0) by {
        lemma_word_of_le64(iov);
        lemma_words_of_push(part2, le64(iov));
        assert(seq![0u64, 0u64].push(iov) =~= seq![0u64, 0u64, iov]);
    }
    assert(words_of(part4) == seq![0u64, 0u64, iov, iovlen] && part4.len() % 8 == 0) by {
        lemma_word_of_le64(iovlen);
        lemma_words_of_push(part3, le64(iovlen));
        assert(seq![0u64, 0u64, iov].push(iovlen) =~= seq![0u64, 0u64, iov, iovlen]);
    }
    assert(words_of(part5) == seq![0u64, 0u64, iov, iovlen, control] && part5.len() % 8 == 0) by {
        lemma_word_of_le64(control);
        lemma_words_of_push(part4, le64(control));
        assert(seq![0u64, 0u64, iov, iovlen].push(control) =~= seq![
            0u64,
            0u64,
            iov,
            iovlen,
            control,
        ]);
    }
    assert(words_of(part6) == seq![0u64, 0u64, iov, iovlen, control, controllen] && part6.len() % 8
        == 0) by {
        lemma_word_of_le64(controllen);
        lemma_words_of_push(part5, le64(controllen));
        assert(seq![0u64, 0u64, iov, iovlen, control].push(controllen) =~= seq![
            0u64,
            0u64,
            iov,
            iovlen,
            control,
            controllen,
        ]);
    }
    assert(words_of(part7) == seq![0u64, 0u64, iov, iovlen, control, controllen, 0u64]) by {
        lemma_word_of_padded32(0);
        lemma_words_of_push(part6, padded32(0));
        assert(seq![0u64, 0u64, iov, iovlen, control, controllen].push(0u64) =~= seq![
            0u64,
            0u64,
            iov,
            iovlen,
            control,
            controllen,
            0u64,
        ]);
    }
}

} // verus!
