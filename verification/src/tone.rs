//! Vowels carrying a tone mark.

use vstd::prelude::*;

verus! {

/// `c` with the tone `tone` (1 sắc, 2 huyền, 3 hỏi, 4 ngã, 5 nặng) placed on
/// it, for the twelve Vietnamese vowels in either case; any other character,
/// or any other tone (0 among them), leaves `c` as it is.
pub open spec fn toned(c: char, tone: u8) -> char {
    match (c, tone) {
        ('a', 1) => 'á',
        ('a', 2) => 'à',
        ('a', 3) => 'ả',
        ('a', 4) => 'ã',
        ('a', 5) => 'ạ',
        ('ă', 1) => 'ắ',
        ('ă', 2) => 'ằ',
        ('ă', 3) => 'ẳ',
        ('ă', 4) => 'ẵ',
        ('ă', 5) => 'ặ',
        ('â', 1) => 'ấ',
        ('â', 2) => 'ầ',
        ('â', 3) => 'ẩ',
        ('â', 4) => 'ẫ',
        ('â', 5) => 'ậ',
        ('e', 1) => 'é',
        ('e', 2) => 'è',
        ('e', 3) => 'ẻ',
        ('e', 4) => 'ẽ',
        ('e', 5) => 'ẹ',
        ('ê', 1) => 'ế',
        ('ê', 2) => 'ề',
        ('ê', 3) => 'ể',
        ('ê', 4) => 'ễ',
        ('ê', 5) => 'ệ',
        ('i', 1) => 'í',
        ('i', 2) => 'ì',
        ('i', 3) => 'ỉ',
        ('i', 4) => 'ĩ',
        ('i', 5) => 'ị',
        ('o', 1) => 'ó',
        ('o', 2) => 'ò',
        ('o', 3) => 'ỏ',
        ('o', 4) => 'õ',
        ('o', 5) => 'ọ',
        ('ô', 1) => 'ố',
        ('ô', 2) => 'ồ',
        ('ô', 3) => 'ổ',
        ('ô', 4) => 'ỗ',
        ('ô', 5) => 'ộ',
        ('ơ', 1) => 'ớ',
        ('ơ', 2) => 'ờ',
        ('ơ', 3) => 'ở',
        ('ơ', 4) => 'ỡ',
        ('ơ', 5) => 'ợ',
        ('u', 1) => 'ú',
        ('u', 2) => 'ù',
        ('u', 3) => 'ủ',
        ('u', 4) => 'ũ',
        ('u', 5) => 'ụ',
        ('ư', 1) => 'ứ',
        ('ư', 2) => 'ừ',
        ('ư', 3) => 'ử',
        ('ư', 4) => 'ữ',
        ('ư', 5) => 'ự',
        ('y', 1) => 'ý',
        ('y', 2) => 'ỳ',
        ('y', 3) => 'ỷ',
        ('y', 4) => 'ỹ',
        ('y', 5) => 'ỵ',
        ('A', 1) => 'Á',
        ('A', 2) => 'À',
        ('A', 3) => 'Ả',
        ('A', 4) => 'Ã',
        ('A', 5) => 'Ạ',
        ('Ă', 1) => 'Ắ',
        ('Ă', 2) => 'Ằ',
        ('Ă', 3) => 'Ẳ',
        ('Ă', 4) => 'Ẵ',
        ('Ă', 5) => 'Ặ',
        ('Â', 1) => 'Ấ',
        ('Â', 2) => 'Ầ',
        ('Â', 3) => 'Ẩ',
        ('Â', 4) => 'Ẫ',
        ('Â', 5) => 'Ậ',
        ('E', 1) => 'É',
        ('E', 2) => 'È',
        ('E', 3) => 'Ẻ',
        ('E', 4) => 'Ẽ',
        ('E', 5) => 'Ẹ',
        ('Ê', 1) => 'Ế',
        ('Ê', 2) => 'Ề',
        ('Ê', 3) => 'Ể',
        ('Ê', 4) => 'Ễ',
        ('Ê', 5) => 'Ệ',
        ('I', 1) => 'Í',
        ('I', 2) => 'Ì',
        ('I', 3) => 'Ỉ',
        ('I', 4) => 'Ĩ',
        ('I', 5) => 'Ị',
        ('O', 1) => 'Ó',
        ('O', 2) => 'Ò',
        ('O', 3) => 'Ỏ',
        ('O', 4) => 'Õ',
        ('O', 5) => 'Ọ',
        ('Ô', 1) => 'Ố',
        ('Ô', 2) => 'Ồ',
        ('Ô', 3) => 'Ổ',
        ('Ô', 4) => 'Ỗ',
        ('Ô', 5) => 'Ộ',
        ('Ơ', 1) => 'Ớ',
        ('Ơ', 2) => 'Ờ',
        ('Ơ', 3) => 'Ở',
        ('Ơ', 4) => 'Ỡ',
        ('Ơ', 5) => 'Ợ',
        ('U', 1) => 'Ú',
        ('U', 2) => 'Ù',
        ('U', 3) => 'Ủ',
        ('U', 4) => 'Ũ',
        ('U', 5) => 'Ụ',
        ('Ư', 1) => 'Ứ',
        ('Ư', 2) => 'Ừ',
        ('Ư', 3) => 'Ử',
        ('Ư', 4) => 'Ữ',
        ('Ư', 5) => 'Ự',
        ('Y', 1) => 'Ý',
        ('Y', 2) => 'Ỳ',
        ('Y', 3) => 'Ỷ',
        ('Y', 4) => 'Ỹ',
        ('Y', 5) => 'Ỵ',
        _ => c,
    }
}

/// The upper-case form of a lower-case Latin or Vietnamese base letter;
/// other characters are unchanged.
pub open spec fn upper(c: char) -> char {
    if 'a' <= c <= 'z' {
        ((c as u32) - 32) as char
    } else {
        match c {
            'ă' => 'Ă',
        'â' => 'Â',
        'ê' => 'Ê',
        'ô' => 'Ô',
        'ơ' => 'Ơ',
        'ư' => 'Ư',
        'đ' => 'Đ',
            _ => c,
        }
    }
}

pub fn map_vowel_with_tone(c: char, tone: u8) -> (r: char)
    ensures
        r == toned(c, tone),
{
    match (c, tone) {
        ('a', 1) => 'á',
        ('a', 2) => 'à',
        ('a', 3) => 'ả',
        ('a', 4) => 'ã',
        ('a', 5) => 'ạ',
        ('ă', 1) => 'ắ',
        ('ă', 2) => 'ằ',
        ('ă', 3) => 'ẳ',
        ('ă', 4) => 'ẵ',
        ('ă', 5) => 'ặ',
        ('â', 1) => 'ấ',
        ('â', 2) => 'ầ',
        ('â', 3) => 'ẩ',
        ('â', 4) => 'ẫ',
        ('â', 5) => 'ậ',
        ('e', 1) => 'é',
        ('e', 2) => 'è',
        ('e', 3) => 'ẻ',
        ('e', 4) => 'ẽ',
        ('e', 5) => 'ẹ',
        ('ê', 1) => 'ế',
        ('ê', 2) => 'ề',
        ('ê', 3) => 'ể',
        ('ê', 4) => 'ễ',
        ('ê', 5) => 'ệ',
        ('i', 1) => 'í',
        ('i', 2) => 'ì',
        ('i', 3) => 'ỉ',
        ('i', 4) => 'ĩ',
        ('i', 5) => 'ị',
        ('o', 1) => 'ó',
        ('o', 2) => 'ò',
        ('o', 3) => 'ỏ',
        ('o', 4) => 'õ',
        ('o', 5) => 'ọ',
        ('ô', 1) => 'ố',
        ('ô', 2) => 'ồ',
        ('ô', 3) => 'ổ',
        ('ô', 4) => 'ỗ',
        ('ô', 5) => 'ộ',
        ('ơ', 1) => 'ớ',
        ('ơ', 2) => 'ờ',
        ('ơ', 3) => 'ở',
        ('ơ', 4) => 'ỡ',
        ('ơ', 5) => 'ợ',
        ('u', 1) => 'ú',
        ('u', 2) => 'ù',
        ('u', 3) => 'ủ',
        ('u', 4) => 'ũ',
        ('u', 5) => 'ụ',
        ('ư', 1) => 'ứ',
        ('ư', 2) => 'ừ',
        ('ư', 3) => 'ử',
        ('ư', 4) => 'ữ',
        ('ư', 5) => 'ự',
        ('y', 1) => 'ý',
        ('y', 2) => 'ỳ',
        ('y', 3) => 'ỷ',
        ('y', 4) => 'ỹ',
        ('y', 5) => 'ỵ',
        ('A', 1) => 'Á',
        ('A', 2) => 'À',
        ('A', 3) => 'Ả',
        ('A', 4) => 'Ã',
        ('A', 5) => 'Ạ',
        ('Ă', 1) => 'Ắ',
        ('Ă', 2) => 'Ằ',
        ('Ă', 3) => 'Ẳ',
        ('Ă', 4) => 'Ẵ',
        ('Ă', 5) => 'Ặ',
        ('Â', 1) => 'Ấ',
        ('Â', 2) => 'Ầ',
        ('Â', 3) => 'Ẩ',
        ('Â', 4) => 'Ẫ',
        ('Â', 5) => 'Ậ',
        ('E', 1) => 'É',
        ('E', 2) => 'È',
        ('E', 3) => 'Ẻ',
        ('E', 4) => 'Ẽ',
        ('E', 5) => 'Ẹ',
        ('Ê', 1) => 'Ế',
        ('Ê', 2) => 'Ề',
        ('Ê', 3) => 'Ể',
        ('Ê', 4) => 'Ễ',
        ('Ê', 5) => 'Ệ',
        ('I', 1) => 'Í',
        ('I', 2) => 'Ì',
        ('I', 3) => 'Ỉ',
        ('I', 4) => 'Ĩ',
        ('I', 5) => 'Ị',
        ('O', 1) => 'Ó',
        ('O', 2) => 'Ò',
        ('O', 3) => 'Ỏ',
        ('O', 4) => 'Õ',
        ('O', 5) => 'Ọ',
        ('Ô', 1) => 'Ố',
        ('Ô', 2) => 'Ồ',
        ('Ô', 3) => 'Ổ',
        ('Ô', 4) => 'Ỗ',
        ('Ô', 5) => 'Ộ',
        ('Ơ', 1) => 'Ớ',
        ('Ơ', 2) => 'Ờ',
        ('Ơ', 3) => 'Ở',
        ('Ơ', 4) => 'Ỡ',
        ('Ơ', 5) => 'Ợ',
        ('U', 1) => 'Ú',
        ('U', 2) => 'Ù',
        ('U', 3) => 'Ủ',
        ('U', 4) => 'Ũ',
        ('U', 5) => 'Ụ',
        ('Ư', 1) => 'Ứ',
        ('Ư', 2) => 'Ừ',
        ('Ư', 3) => 'Ử',
        ('Ư', 4) => 'Ữ',
        ('Ư', 5) => 'Ự',
        ('Y', 1) => 'Ý',
        ('Y', 2) => 'Ỳ',
        ('Y', 3) => 'Ỷ',
        ('Y', 4) => 'Ỹ',
        ('Y', 5) => 'Ỵ',
        _ => c,
    }
}

pub fn to_upper(c: char) -> (r: char)
    ensures
        r == upper(c),
{
    if 'a' <= c && c <= 'z' {
        let code: u32 = (c as u32) - 32;
        proof {
            assert(65 <= code <= 90);
        }
        char_from_ascii(code as u8)
    } else {
        match c {
            'ă' => 'Ă',
        'â' => 'Â',
        'ê' => 'Ê',
        'ô' => 'Ô',
        'ơ' => 'Ơ',
        'ư' => 'Ư',
        'đ' => 'Đ',
            _ => c,
        }
    }
}

/// The character with the ASCII code `b`.
pub fn char_from_ascii(b: u8) -> (c: char)
    ensures
        c == (b as char),
        c as u32 == b as u32,
{
    b as char
}


/// The Unicode `NFD` decomposition of a Vietnamese vowel letter: the base
/// Latin letter, the combining mark that shapes the vowel (U+0306 breve,
/// U+0302 circumflex, U+031B horn; 0 for none) and the combining tone mark
/// (0 for none). Any other character is its own base with no marks.
pub open spec fn vowel_parts(c: char) -> (char, u32, u32) {
    match c {
        'a' => ('a', 0x0u32, 0x0u32),
        'á' => ('a', 0x0u32, 0x301u32),
        'à' => ('a', 0x0u32, 0x300u32),
        'ả' => ('a', 0x0u32, 0x309u32),
        'ã' => ('a', 0x0u32, 0x303u32),
        'ạ' => ('a', 0x0u32, 0x323u32),
        'ă' => ('a', 0x306u32, 0x0u32),
        'ắ' => ('a', 0x306u32, 0x301u32),
        'ằ' => ('a', 0x306u32, 0x300u32),
        'ẳ' => ('a', 0x306u32, 0x309u32),
        'ẵ' => ('a', 0x306u32, 0x303u32),
        'ặ' => ('a', 0x306u32, 0x323u32),
        'â' => ('a', 0x302u32, 0x0u32),
        'ấ' => ('a', 0x302u32, 0x301u32),
        'ầ' => ('a', 0x302u32, 0x300u32),
        'ẩ' => ('a', 0x302u32, 0x309u32),
        'ẫ' => ('a', 0x302u32, 0x303u32),
        'ậ' => ('a', 0x302u32, 0x323u32),
        'e' => ('e', 0x0u32, 0x0u32),
        'é' => ('e', 0x0u32, 0x301u32),
        'è' => ('e', 0x0u32, 0x300u32),
        'ẻ' => ('e', 0x0u32, 0x309u32),
        'ẽ' => ('e', 0x0u32, 0x303u32),
        'ẹ' => ('e', 0x0u32, 0x323u32),
        'ê' => ('e', 0x302u32, 0x0u32),
        'ế' => ('e', 0x302u32, 0x301u32),
        'ề' => ('e', 0x302u32, 0x300u32),
        'ể' => ('e', 0x302u32, 0x309u32),
        'ễ' => ('e', 0x302u32, 0x303u32),
        'ệ' => ('e', 0x302u32, 0x323u32),
        'i' => ('i', 0x0u32, 0x0u32),
        'í' => ('i', 0x0u32, 0x301u32),
        'ì' => ('i', 0x0u32, 0x300u32),
        'ỉ' => ('i', 0x0u32, 0x309u32),
        'ĩ' => ('i', 0x0u32, 0x303u32),
        'ị' => ('i', 0x0u32, 0x323u32),
        'o' => ('o', 0x0u32, 0x0u32),
        'ó' => ('o', 0x0u32, 0x301u32),
        'ò' => ('o', 0x0u32, 0x300u32),
        'ỏ' => ('o', 0x0u32, 0x309u32),
        'õ' => ('o', 0x0u32, 0x303u32),
        'ọ' => ('o', 0x0u32, 0x323u32),
        'ô' => ('o', 0x302u32, 0x0u32),
        'ố' => ('o', 0x302u32, 0x301u32),
        'ồ' => ('o', 0x302u32, 0x300u32),
        'ổ' => ('o', 0x302u32, 0x309u32),
        'ỗ' => ('o', 0x302u32, 0x303u32),
        'ộ' => ('o', 0x302u32, 0x323u32),
        'ơ' => ('o', 0x31Bu32, 0x0u32),
        'ớ' => ('o', 0x31Bu32, 0x301u32),
        'ờ' => ('o', 0x31Bu32, 0x300u32),
        'ở' => ('o', 0x31Bu32, 0x309u32),
        'ỡ' => ('o', 0x31Bu32, 0x303u32),
        'ợ' => ('o', 0x31Bu32, 0x323u32),
        'u' => ('u', 0x0u32, 0x0u32),
        'ú' => ('u', 0x0u32, 0x301u32),
        'ù' => ('u', 0x0u32, 0x300u32),
        'ủ' => ('u', 0x0u32, 0x309u32),
        'ũ' => ('u', 0x0u32, 0x303u32),
        'ụ' => ('u', 0x0u32, 0x323u32),
        'ư' => ('u', 0x31Bu32, 0x0u32),
        'ứ' => ('u', 0x31Bu32, 0x301u32),
        'ừ' => ('u', 0x31Bu32, 0x300u32),
        'ử' => ('u', 0x31Bu32, 0x309u32),
        'ữ' => ('u', 0x31Bu32, 0x303u32),
        'ự' => ('u', 0x31Bu32, 0x323u32),
        'y' => ('y', 0x0u32, 0x0u32),
        'ý' => ('y', 0x0u32, 0x301u32),
        'ỳ' => ('y', 0x0u32, 0x300u32),
        'ỷ' => ('y', 0x0u32, 0x309u32),
        'ỹ' => ('y', 0x0u32, 0x303u32),
        'ỵ' => ('y', 0x0u32, 0x323u32),
        'A' => ('A', 0x0u32, 0x0u32),
        'Á' => ('A', 0x0u32, 0x301u32),
        'À' => ('A', 0x0u32, 0x300u32),
        'Ả' => ('A', 0x0u32, 0x309u32),
        'Ã' => ('A', 0x0u32, 0x303u32),
        'Ạ' => ('A', 0x0u32, 0x323u32),
        'Ă' => ('A', 0x306u32, 0x0u32),
        'Ắ' => ('A', 0x306u32, 0x301u32),
        'Ằ' => ('A', 0x306u32, 0x300u32),
        'Ẳ' => ('A', 0x306u32, 0x309u32),
        'Ẵ' => ('A', 0x306u32, 0x303u32),
        'Ặ' => ('A', 0x306u32, 0x323u32),
        'Â' => ('A', 0x302u32, 0x0u32),
        'Ấ' => ('A', 0x302u32, 0x301u32),
        'Ầ' => ('A', 0x302u32, 0x300u32),
        'Ẩ' => ('A', 0x302u32, 0x309u32),
        'Ẫ' => ('A', 0x302u32, 0x303u32),
        'Ậ' => ('A', 0x302u32, 0x323u32),
        'E' => ('E', 0x0u32, 0x0u32),
        'É' => ('E', 0x0u32, 0x301u32),
        'È' => ('E', 0x0u32, 0x300u32),
        'Ẻ' => ('E', 0x0u32, 0x309u32),
        'Ẽ' => ('E', 0x0u32, 0x303u32),
        'Ẹ' => ('E', 0x0u32, 0x323u32),
        'Ê' => ('E', 0x302u32, 0x0u32),
        'Ế' => ('E', 0x302u32, 0x301u32),
        'Ề' => ('E', 0x302u32, 0x300u32),
        'Ể' => ('E', 0x302u32, 0x309u32),
        'Ễ' => ('E', 0x302u32, 0x303u32),
        'Ệ' => ('E', 0x302u32, 0x323u32),
        'I' => ('I', 0x0u32, 0x0u32),
        'Í' => ('I', 0x0u32, 0x301u32),
        'Ì' => ('I', 0x0u32, 0x300u32),
        'Ỉ' => ('I', 0x0u32, 0x309u32),
        'Ĩ' => ('I', 0x0u32, 0x303u32),
        'Ị' => ('I', 0x0u32, 0x323u32),
        'O' => ('O', 0x0u32, 0x0u32),
        'Ó' => ('O', 0x0u32, 0x301u32),
        'Ò' => ('O', 0x0u32, 0x300u32),
        'Ỏ' => ('O', 0x0u32, 0x309u32),
        'Õ' => ('O', 0x0u32, 0x303u32),
        'Ọ' => ('O', 0x0u32, 0x323u32),
        'Ô' => ('O', 0x302u32, 0x0u32),
        'Ố' => ('O', 0x302u32, 0x301u32),
        'Ồ' => ('O', 0x302u32, 0x300u32),
        'Ổ' => ('O', 0x302u32, 0x309u32),
        'Ỗ' => ('O', 0x302u32, 0x303u32),
        'Ộ' => ('O', 0x302u32, 0x323u32),
        'Ơ' => ('O', 0x31Bu32, 0x0u32),
        'Ớ' => ('O', 0x31Bu32, 0x301u32),
        'Ờ' => ('O', 0x31Bu32, 0x300u32),
        'Ở' => ('O', 0x31Bu32, 0x309u32),
        'Ỡ' => ('O', 0x31Bu32, 0x303u32),
        'Ợ' => ('O', 0x31Bu32, 0x323u32),
        'U' => ('U', 0x0u32, 0x0u32),
        'Ú' => ('U', 0x0u32, 0x301u32),
        'Ù' => ('U', 0x0u32, 0x300u32),
        'Ủ' => ('U', 0x0u32, 0x309u32),
        'Ũ' => ('U', 0x0u32, 0x303u32),
        'Ụ' => ('U', 0x0u32, 0x323u32),
        'Ư' => ('U', 0x31Bu32, 0x0u32),
        'Ứ' => ('U', 0x31Bu32, 0x301u32),
        'Ừ' => ('U', 0x31Bu32, 0x300u32),
        'Ử' => ('U', 0x31Bu32, 0x309u32),
        'Ữ' => ('U', 0x31Bu32, 0x303u32),
        'Ự' => ('U', 0x31Bu32, 0x323u32),
        'Y' => ('Y', 0x0u32, 0x0u32),
        'Ý' => ('Y', 0x0u32, 0x301u32),
        'Ỳ' => ('Y', 0x0u32, 0x300u32),
        'Ỷ' => ('Y', 0x0u32, 0x309u32),
        'Ỹ' => ('Y', 0x0u32, 0x303u32),
        'Ỵ' => ('Y', 0x0u32, 0x323u32),
        _ => (c, 0u32, 0u32),
    }
}

/// The combining mark of each tone: U+0301 acute (sắc), U+0300 grave
/// (huyền), U+0309 hook above (hỏi), U+0303 tilde (ngã), U+0323 dot below
/// (nặng).
pub open spec fn tone_mark(t: u8) -> u32 {
    if t == 1 {
        0x301
    } else if t == 2 {
        0x300
    } else if t == 3 {
        0x309
    } else if t == 4 {
        0x303
    } else if t == 5 {
        0x323
    } else {
        0
    }
}

/// The twelve Vietnamese vowel letters without a tone, in either case.
pub open spec fn untoned_vowel(c: char) -> bool {
    c == 'a' || c == 'ă' || c == 'â' || c == 'e' || c == 'ê' || c == 'i' || c == 'o' || c == 'ô' || c == 'ơ' || c == 'u' || c == 'ư' || c == 'y' || c == 'A' || c == 'Ă' || c == 'Â' || c == 'E' || c == 'Ê' || c == 'I' || c == 'O' || c == 'Ô' || c == 'Ơ' || c == 'U' || c == 'Ư' || c == 'Y'
}

/// Law: `toned` puts exactly the tone `t` on a vowel: the result decomposes
/// into the same letter with the same shaping mark, plus the one combining
/// mark of `t` (the same mark for every vowel); a tone outside 1..5 leaves
/// every character as it is.
pub proof fn toned_adds_tone_mark(c: char, t: u8)
    ensures
        untoned_vowel(c) && 1 <= t <= 5 ==> vowel_parts(toned(c, t)) == (
            vowel_parts(c).0,
            vowel_parts(c).1,
            tone_mark(t),
        ),
        untoned_vowel(c) ==> vowel_parts(c).2 == 0,
        t == 0 || t > 5 ==> toned(c, t) == c,
{
}

/// Lower case of the upper-case letters of the Latin and Vietnamese
/// alphabets (Unicode simple case mapping); any other character is unchanged.
pub open spec fn lower_of(c: char) -> char {
    if 'A' <= c <= 'Z' {
        ((c as u32) + 32) as char
    } else {
        match c {
        'Ă' => 'ă',
        'Â' => 'â',
        'Ê' => 'ê',
        'Ô' => 'ô',
        'Ơ' => 'ơ',
        'Ư' => 'ư',
        'Đ' => 'đ',
        'Á' => 'á',
        'À' => 'à',
        'Ả' => 'ả',
        'Ã' => 'ã',
        'Ạ' => 'ạ',
        'Ắ' => 'ắ',
        'Ằ' => 'ằ',
        'Ẳ' => 'ẳ',
        'Ẵ' => 'ẵ',
        'Ặ' => 'ặ',
        'Ấ' => 'ấ',
        'Ầ' => 'ầ',
        'Ẩ' => 'ẩ',
        'Ẫ' => 'ẫ',
        'Ậ' => 'ậ',
        'É' => 'é',
        'È' => 'è',
        'Ẻ' => 'ẻ',
        'Ẽ' => 'ẽ',
        'Ẹ' => 'ẹ',
        'Ế' => 'ế',
        'Ề' => 'ề',
        'Ể' => 'ể',
        'Ễ' => 'ễ',
        'Ệ' => 'ệ',
        'Í' => 'í',
        'Ì' => 'ì',
        'Ỉ' => 'ỉ',
        'Ĩ' => 'ĩ',
        'Ị' => 'ị',
        'Ó' => 'ó',
        'Ò' => 'ò',
        'Ỏ' => 'ỏ',
        'Õ' => 'õ',
        'Ọ' => 'ọ',
        'Ố' => 'ố',
        'Ồ' => 'ồ',
        'Ổ' => 'ổ',
        'Ỗ' => 'ỗ',
        'Ộ' => 'ộ',
        'Ớ' => 'ớ',
        'Ờ' => 'ờ',
        'Ở' => 'ở',
        'Ỡ' => 'ỡ',
        'Ợ' => 'ợ',
        'Ú' => 'ú',
        'Ù' => 'ù',
        'Ủ' => 'ủ',
        'Ũ' => 'ũ',
        'Ụ' => 'ụ',
        'Ứ' => 'ứ',
        'Ừ' => 'ừ',
        'Ử' => 'ử',
        'Ữ' => 'ữ',
        'Ự' => 'ự',
        'Ý' => 'ý',
        'Ỳ' => 'ỳ',
        'Ỷ' => 'ỷ',
        'Ỹ' => 'ỹ',
        'Ỵ' => 'ỵ',
            _ => c,
        }
    }
}

/// The lower-case letters of the Vietnamese alphabet without a tone: `a`
/// to `z` and `ă â ê ô ơ ư đ`.
pub open spec fn lower_base_letter(c: char) -> bool {
    ('a' <= c <= 'z') || c == 'ă' || c == 'â' || c == 'ê' || c == 'ô' || c == 'ơ' || c == 'ư' || c == 'đ'
}

/// Law: `upper` turns every lower-case letter of the alphabet into a
/// different character whose lower case is that letter, marks kept.
pub proof fn upper_is_upper_case(c: char)
    requires
        lower_base_letter(c),
    ensures
        upper(c) != c,
        lower_of(upper(c)) == c,
{
}

/// Law: `upper` leaves every character other than those lower-case letters
/// as it is.
pub proof fn upper_leaves_other_characters(c: char)
    requires
        !lower_base_letter(c),
    ensures
        upper(c) == c,
{
}

/// Law: a tone on an upper-case vowel gives the upper case of the same
/// vowel with the same tone.
pub proof fn toned_keeps_case(c: char, t: u8)
    requires
        c == 'a' || c == 'ă' || c == 'â' || c == 'e' || c == 'ê' || c == 'i' || c == 'o' || c == 'ô' || c == 'ơ' || c == 'u' || c == 'ư' || c == 'y',
        1 <= t <= 5,
    ensures
        toned(upper(c), t) != toned(c, t),
        lower_of(toned(upper(c), t)) == toned(c, t),
{
}

} // verus!
