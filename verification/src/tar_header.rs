//! The tar header that closes a blob or a bootstrap in an image file.
use std::path::Path;
use tar::{EntryType, Header};
use vstd::prelude::*;
use crate::error::BuildError;

verus! {

/// Size of a tar header.
pub const TAR_HEADER_SIZE: usize = 512;

/// `tar::Header`, one 512-byte header block. It is only seen through `header_image`.
#[verifier::external_type_specification]
#[verifier::external_body]
pub struct ExHeader(Header);

/// The bytes that a header holds, as `tar::Header::as_bytes` gives them.
pub uninterp spec fn header_image(header: Header) -> Seq<u8>;

/// The bytes that `tar::Header::set_path` stores for a path in a blank header, or the text of the
/// error with which it refuses the path.
pub uninterp spec fn archive_path(path: Seq<char>) -> Result<Seq<u8>, Seq<char>>;

/// `image` with `field` written at position `at`.
pub open spec fn with_field(image: Seq<u8>, at: int, field: Seq<u8>) -> Seq<u8> {
    image.take(at) + field + image.skip(at + field.len())
}

/// The last `n` octal digits of `value`, in ASCII.
pub open spec fn octal_digits(value: nat, n: nat) -> Seq<u8>
    decreases n,
{
    if n == 0 {
        Seq::empty()
    } else {
        octal_digits(value / 8, (n - 1) as nat).push((48 + value % 8) as u8)
    }
}

/// A field of `len` bytes that holds `value` in octal, zero-padded and closed by a null byte.
pub open spec fn octal_field(value: nat, len: nat) -> Seq<u8> {
    octal_digits(value, (len - 1) as nat).push(0)
}

/// The last `n` bytes of `value`, the highest one first.
pub open spec fn big_endian(value: nat, n: nat) -> Seq<u8>
    decreases n,
{
    if n == 0 {
        Seq::empty()
    } else {
        big_endian(value / 256, (n - 1) as nat).push((value % 256) as u8)
    }
}

/// The size field: octal if eleven digits are enough, else binary with the top bit set.
pub open spec fn size_field(size: u64) -> Seq<u8> {
    if size < 0x2_0000_0000 {
        octal_field(size as nat, 12)
    } else {
        seq![0x80u8, 0, 0, 0] + big_endian(size as nat, 8)
    }
}

/// The magic and version fields of the GNU format.
pub open spec fn gnu_magic() -> Seq<u8> {
    seq![0x75u8, 0x73, 0x74, 0x61, 0x72, 0x20, 0x20, 0]
}

/// A blank header in GNU format: the magic, a modification time of zero, and null bytes.
pub open spec fn blank_image() -> Seq<u8> {
    with_field(
        with_field(Seq::new(TAR_HEADER_SIZE as nat, |i: int| 0u8), 257, gnu_magic()),
        136,
        octal_field(0, 12),
    )
}

/// `image` with `path` in its name field, closed by a null byte if there is room for one.
pub open spec fn with_path(image: Seq<u8>, path: Seq<u8>) -> Seq<u8> {
    with_field(image, 0, if path.len() < 100 { path.push(0) } else { path })
}

/// Sum of the bytes of `s`.
pub open spec fn byte_sum(s: Seq<u8>) -> nat
    decreases s.len(),
{
    if s.len() == 0 {
        0
    } else {
        byte_sum(s.drop_last()) + s.last() as nat
    }
}

/// The checksum of a header: the sum of its bytes, with blanks in the checksum field.
pub open spec fn checksum(image: Seq<u8>) -> nat {
    byte_sum(with_field(image, 148, Seq::new(8, |i: int| 0x20u8)))
}

/// `image` with its checksum filled in.
pub open spec fn with_checksum(image: Seq<u8>) -> Seq<u8> {
    with_field(image, 148, octal_field(checksum(image), 8))
}

/// The header of a regular file that is stored as `path` and holds `size` bytes.
pub open spec fn tar_image(path: Seq<u8>, size: u64) -> Seq<u8> {
    let named = with_path(blank_image(), path);
    let typed = with_field(named, 156, seq![0x30u8]);
    with_checksum(with_field(typed, 124, size_field(size)))
}

/// A path that is one name: not empty, without separator, and not the parent directory.
pub open spec fn is_single_name(path: Seq<char>) -> bool {
    path.len() > 0 && !path.contains('/') && path != seq!['.', '.']
}

/// Whether `path` has a length that the name field takes and no null byte.
pub open spec fn fits_name_field(path: Seq<u8>) -> bool {
    0 < path.len() <= 100 && !path.contains(0u8)
}

/// `tar::Header::new_gnu`: a blank header in GNU format.
pub assume_specification[ Header::new_gnu ]() -> (header: Header)
    ensures
        header_image(header) == blank_image(),
;

/// `tar::Header::set_size`: fills in the size field.
pub assume_specification[ Header::set_size ](header: &mut Header, size: u64)
    ensures
        header_image(*final(header)) == with_field(header_image(*old(header)), 124, size_field(size)),
;

/// `tar::Header::set_cksum`: fills in the checksum of the header as it stands.
pub assume_specification[ Header::set_cksum ](header: &mut Header)
    ensures
        header_image(*final(header)) == with_checksum(header_image(*old(header))),
;

/// `tar::Header::set_entry_type` with `tar::EntryType::Regular`: the type field becomes the digit
/// zero.
#[verifier::external_body]
fn set_regular(header: &mut Header)
    ensures
        header_image(*final(header)) == with_field(header_image(*old(header)), 156, seq![0x30u8]),
{
    header.set_entry_type(EntryType::Regular);
}

/// `tar::Header::set_path` on a blank header in GNU format, with the text of its error.
///
/// Which paths it refuses and with what text, and how it writes one of several components, is left
/// to the name `archive_path`. What it stores is not empty, has at most 100 bytes and no null byte,
/// and goes to the name field. A path that is one name is stored as it is if it meets these
/// conditions, and refused if not; an empty path is refused. Nothing is said of a header whose path
/// was refused. All of this is for Unix, where `/` alone separates the components of a path.
#[verifier::external_body]
fn set_path(header: &mut Header, path: &str) -> (result: Result<(), String>)
    requires
        header_image(*old(header)) == blank_image(),
    ensures
        match result {
            Ok(()) => {
                &&& archive_path(path@) matches Ok(stored)
                &&& fits_name_field(stored)
                &&& header_image(*final(header)) == with_path(blank_image(), stored)
            },
            Err(reason) => archive_path(path@) matches Err(text) && reason@ == text,
        },
        is_single_name(path@) ==> (result is Ok <==> fits_name_field(
            vstd::utf8::encode_utf8(path@),
        )),
        is_single_name(path@) && result is Ok ==> archive_path(path@)->Ok_0
            == vstd::utf8::encode_utf8(path@),
        path@.len() == 0 ==> result is Err,
{
    match header.set_path(Path::new(path)) {
        Ok(()) => Ok(()),
        Err(e) => Err(e.to_string()),
    }
}

/// `tar::Header::as_bytes`: the bytes that the header holds.
#[verifier::external_body]
fn image_of(header: &Header) -> (bytes: Vec<u8>)
    ensures
        bytes@ == header_image(*header),
{
    header.as_bytes().to_vec()
}

proof fn lemma_octal_digits_len(value: nat, n: nat)
    ensures
        octal_digits(value, n).len() == n,
    decreases n,
{
    if n > 0 {
        lemma_octal_digits_len(value / 8, (n - 1) as nat);
    }
}

proof fn lemma_big_endian_len(value: nat, n: nat)
    ensures
        big_endian(value, n).len() == n,
    decreases n,
{
    if n > 0 {
        lemma_big_endian_len(value / 256, (n - 1) as nat);
    }
}

proof fn lemma_size_field_len(size: u64)
    ensures
        size_field(size).len() == 12,
{
    lemma_octal_digits_len(size as nat, 11);
    lemma_big_endian_len(size as nat, 8);
}

proof fn lemma_blank_image()
    ensures
        blank_image().len() == TAR_HEADER_SIZE,
        blank_image().subrange(257, 265) == gnu_magic(),
{
    lemma_octal_digits_len(0, 11);
    assert(blank_image().subrange(257, 265) =~= gnu_magic());
}

/// The header of a regular file of `size` bytes, stored as `name`.
pub fn regular_file_header(name: &str, size: u64) -> (result: Result<Vec<u8>, BuildError>)
    ensures
        match result {
            Ok(bytes) => {
                &&& archive_path(name@) matches Ok(path)
                &&& fits_name_field(path)
                &&& bytes@ == tar_image(path, size)
            },
            Err(e) => {
                &&& archive_path(name@) matches Err(text)
                &&& e matches BuildError::InvalidTarName(reason)
                &&& reason@ == text
            },
        },
        is_single_name(name@) && fits_name_field(vstd::utf8::encode_utf8(name@)) ==> {
            &&& result matches Ok(bytes)
            &&& bytes@ == tar_image(vstd::utf8::encode_utf8(name@), size)
        },
        is_single_name(name@) && !fits_name_field(vstd::utf8::encode_utf8(name@)) ==> result is Err,
        name@.len() == 0 ==> result is Err,
{
    let mut header: Header = Header::new_gnu();
    match set_path(&mut header, name) {
        Ok(()) => {},
        Err(reason) => {
            return Err(BuildError::InvalidTarName(reason));
        },
    }
    set_regular(&mut header);
    header.set_size(size);
    // Readers check the sum before they trust the header.
    header.set_cksum();
    Ok(image_of(&header))
}

/// The value of a string of octal digits.
pub open spec fn octal_value(digits: Seq<u8>) -> nat
    decreases digits.len(),
{
    if digits.len() == 0 {
        0
    } else {
        (octal_value(digits.drop_last()) * 8 + (digits.last() - 48)) as nat
    }
}

/// The value of a string of bytes, the highest one first.
pub open spec fn big_endian_value(bytes: Seq<u8>) -> nat
    decreases bytes.len(),
{
    if bytes.len() == 0 {
        0
    } else {
        big_endian_value(bytes.drop_last()) * 256 + bytes.last() as nat
    }
}

/// The size that a reader takes from a header.
pub open spec fn read_size(image: Seq<u8>) -> nat {
    if image[124] >= 0x80 {
        big_endian_value(image.subrange(128, 136))
    } else {
        octal_value(image.subrange(124, 135))
    }
}

/// The checksum that a reader takes from a header.
pub open spec fn read_checksum(image: Seq<u8>) -> nat {
    octal_value(image.subrange(148, 155))
}

proof fn lemma_octal_value(value: nat, n: nat)
    requires
        value < vstd::arithmetic::power::pow(8, n),
    ensures
        octal_value(octal_digits(value, n)) == value,
    decreases n,
{
    reveal(vstd::arithmetic::power::pow);
    if n > 0 {
        let rest = octal_digits(value / 8, (n - 1) as nat);
        lemma_octal_value(value / 8, (n - 1) as nat);
        assert(octal_digits(value, n).drop_last() =~= rest);
    }
}

proof fn lemma_big_endian_value(value: nat, n: nat)
    requires
        value < vstd::arithmetic::power::pow(256, n),
    ensures
        big_endian_value(big_endian(value, n)) == value,
    decreases n,
{
    reveal(vstd::arithmetic::power::pow);
    if n > 0 {
        let rest = big_endian(value / 256, (n - 1) as nat);
        lemma_big_endian_value(value / 256, (n - 1) as nat);
        assert(big_endian(value, n).drop_last() =~= rest);
    }
}

proof fn lemma_first_octal_digit(value: nat, n: nat)
    requires
        n > 0,
    ensures
        octal_digits(value, n)[0] < 0x80,
    decreases n,
{
    lemma_octal_digits_len(value, n);
    lemma_octal_digits_len(value / 8, (n - 1) as nat);
    if n > 1 {
        lemma_first_octal_digit(value / 8, (n - 1) as nat);
    }
}

proof fn lemma_byte_sum_bound(s: Seq<u8>)
    ensures
        byte_sum(s) <= 255 * s.len(),
    decreases s.len(),
{
    if s.len() > 0 {
        lemma_byte_sum_bound(s.drop_last());
    }
}

/// The parts of the image from which the laws below are read off.
#[verifier::rlimit(40)]
proof fn lemma_tar_image(path: Seq<u8>, size: u64)
    requires
        fits_name_field(path),
    ensures
        tar_image(path, size).len() == TAR_HEADER_SIZE,
        tar_image(path, size).subrange(124, 136) == size_field(size),
        tar_image(path, size).take(path.len() as int) == path,
        path.len() < 100 ==> tar_image(path, size)[path.len() as int] == 0,
        tar_image(path, size)[156] == 0x30,
        tar_image(path, size).subrange(257, 265) == gnu_magic(),
        tar_image(path, size).subrange(148, 156) == octal_field(checksum(tar_image(path, size)), 8),
{
    lemma_blank_image();
    lemma_size_field_len(size);
    let named = with_path(blank_image(), path);
    let typed = with_field(named, 156, seq![0x30u8]);
    let sized = with_field(typed, 124, size_field(size));
    let image = tar_image(path, size);
    let sum = checksum(sized);
    lemma_octal_digits_len(sum, 7);
    assert(named.len() == TAR_HEADER_SIZE);
    assert(typed.len() == TAR_HEADER_SIZE);
    assert(sized.len() == TAR_HEADER_SIZE);
    assert(image == with_field(sized, 148, octal_field(sum, 8)));
    assert(image.len() == TAR_HEADER_SIZE);
    assert(image.subrange(124, 136) =~= size_field(size));
    assert(image.take(path.len() as int) =~= path);
    assert(image.subrange(257, 265) =~= blank_image().subrange(257, 265));
    assert(image.subrange(148, 156) =~= octal_field(sum, 8));
    let blanks = Seq::new(8, |i: int| 0x20u8);
    assert(with_field(image, 148, blanks) =~= with_field(sized, 148, blanks));
}

/// The fields of the image that are the same for every file, and the name field.
#[verifier::rlimit(40)]
pub proof fn lemma_tar_image_fields(path: Seq<u8>, size: u64)
    requires
        fits_name_field(path),
    ensures
        tar_image(path, size).take(path.len() as int) == path,
        forall|i: int| path.len() <= i < 124 ==> #[trigger] tar_image(path, size)[i] == 0,
        forall|i: int| 136 <= i < 147 ==> #[trigger] tar_image(path, size)[i] == 0x30,
        tar_image(path, size)[147] == 0,
        tar_image(path, size)[155] == 0,
        tar_image(path, size)[156] == 0x30,
        forall|i: int| 157 <= i < 257 ==> #[trigger] tar_image(path, size)[i] == 0,
        tar_image(path, size).subrange(257, 265) == gnu_magic(),
        forall|i: int| 265 <= i < 512 ==> #[trigger] tar_image(path, size)[i] == 0,
{
    lemma_tar_image(path, size);
    lemma_blank_image();
    lemma_size_field_len(size);
    lemma_zero_digits(11);
    let named = with_path(blank_image(), path);
    let typed = with_field(named, 156, seq![0x30u8]);
    let sized = with_field(typed, 124, size_field(size));
    let sum = checksum(sized);
    lemma_octal_digits_len(sum, 7);
    assert(tar_image(path, size) == with_field(sized, 148, octal_field(sum, 8)));
}

proof fn lemma_zero_digits(n: nat)
    ensures
        octal_digits(0, n) == Seq::new(n, |i: int| 0x30u8),
    decreases n,
{
    if n > 0 {
        lemma_zero_digits((n - 1) as nat);
    }
    assert(octal_digits(0, n) =~= Seq::new(n, |i: int| 0x30u8));
}

/// A reader of the header finds the size that was stored.
pub proof fn law_size_reads_back(path: Seq<u8>, size: u64)
    requires
        fits_name_field(path),
    ensures
        tar_image(path, size).len() == TAR_HEADER_SIZE,
        read_size(tar_image(path, size)) == size,
{
    lemma_tar_image(path, size);
    let image = tar_image(path, size);
    let field = size_field(size);
    assert(image[124] == image.subrange(124, 136)[0]);
    if size < 0x2_0000_0000 {
        lemma_octal_digits_len(size as nat, 11);
        lemma_first_octal_digit(size as nat, 11);
        assert(image.subrange(124, 135) =~= octal_digits(size as nat, 11)) by {
            assert(image.subrange(124, 135) =~= image.subrange(124, 136).drop_last());
        }
        assert(vstd::arithmetic::power::pow(8, 11) == 0x2_0000_0000) by {
            reveal(vstd::arithmetic::power::pow);
            reveal_with_fuel(vstd::arithmetic::power::pow, 12);
        }
        lemma_octal_value(size as nat, 11);
    } else {
        lemma_big_endian_len(size as nat, 8);
        assert(field[0] == 0x80);
        assert(image.subrange(128, 136) =~= big_endian(size as nat, 8)) by {
            assert(image.subrange(128, 136) =~= image.subrange(124, 136).skip(4));
        }
        assert(vstd::arithmetic::power::pow(256, 8) == 0x1_0000_0000_0000_0000) by {
            reveal(vstd::arithmetic::power::pow);
            reveal_with_fuel(vstd::arithmetic::power::pow, 9);
        }
        lemma_big_endian_value(size as nat, 8);
    }
}

/// A reader of the header finds a checksum that agrees with the header.
pub proof fn law_checksum_agrees(path: Seq<u8>, size: u64)
    requires
        fits_name_field(path),
    ensures
        read_checksum(tar_image(path, size)) == checksum(tar_image(path, size)),
{
    lemma_tar_image(path, size);
    let image = tar_image(path, size);
    let sum = checksum(image);
    let blanks = Seq::new(8, |i: int| 0x20u8);
    lemma_byte_sum_bound(with_field(image, 148, blanks));
    lemma_octal_digits_len(sum, 7);
    assert(image.subrange(148, 155) =~= octal_digits(sum, 7)) by {
        assert(image.subrange(148, 155) =~= image.subrange(148, 156).drop_last());
    }
    assert(vstd::arithmetic::power::pow(8, 7) == 0x20_0000) by {
        reveal(vstd::arithmetic::power::pow);
        reveal_with_fuel(vstd::arithmetic::power::pow, 8);
    }
    lemma_octal_value(sum, 7);
}

/// The header of a part of an image file follows the data of that part, so a reader that starts at
/// the end of the part finds the data: it takes the size from the last 512 bytes and goes back by
/// that much.
pub proof fn law_trailing_header_locates_data(before: Seq<u8>, data: Seq<u8>, path: Seq<u8>)
    requires
        fits_name_field(path),
        data.len() <= u64::MAX,
    ensures
        ({
            let file = before + data + tar_image(path, data.len() as u64);
            let end = file.len() - TAR_HEADER_SIZE;
            let size = read_size(file.skip(end));
            file.subrange(end - size, end) == data
        }),
{
    law_size_reads_back(path, data.len() as u64);
    let image = tar_image(path, data.len() as u64);
    let file = before + data + image;
    let end = file.len() - TAR_HEADER_SIZE;
    assert(file.skip(end) =~= image);
    assert(file.subrange(end - data.len(), end) =~= data);
}

} // verus!
