use vstd::prelude::*;

verus! {

use vstd::string::{StringExecFns, StringSliceAdditionalSpecFns};

use crate::textutil::{lex_le, str_lex_le, str_bytes, lemma_lex_le_refl, lemma_lex_le_total, lemma_lex_le_trans};

/// Index of the last `.` in a file name, if any.
pub open spec fn rfind_dot(name: Seq<u8>) -> Option<int>
    decreases name.len(),
{
    if name.len() == 0 {
        None
    } else if name.last() == 46u8 {
        Some(name.len() - 1)
    } else {
        rfind_dot(name.drop_last())
    }
}

/// The extension of a file name: what follows the final `.`, none when
/// there is no dot or the name only starts with one (a hidden file).
pub open spec fn spec_ext_of(name: Seq<u8>) -> Option<Seq<u8>> {
    match rfind_dot(name) {
        None => None,
        Some(k) => if k == 0 {
            None
        } else {
            Some(name.skip(k + 1))
        },
    }
}

/// ASCII lowercasing of one byte.
pub open spec fn spec_lower_byte(b: u8) -> u8 {
    if 65 <= b <= 90 {
        (b + 32) as u8
    } else {
        b
    }
}

/// The supported avatar image extensions, compared case-insensitively:
/// png, jpg, jpeg, gif.
pub open spec fn spec_is_supported_ext(ext: Seq<u8>) -> bool {
    let low = ext.map_values(|b: u8| spec_lower_byte(b));
    ||| low == seq![112u8, 110u8, 103u8]
    ||| low == seq![106u8, 112u8, 103u8]
    ||| low == seq![106u8, 112u8, 101u8, 103u8]
    ||| low == seq![103u8, 105u8, 102u8]
}

/// Whether a file name (by its UTF-8 bytes) is a supported avatar image.
pub open spec fn spec_is_avatar_candidate(name: Seq<u8>) -> bool {
    match spec_ext_of(name) {
        None => false,
        Some(ext) => spec_is_supported_ext(ext),
    }
}

/// `rfind_dot` finds no dot exactly when there is none.
proof fn lemma_rfind_dot_none(name: Seq<u8>)
    requires
        forall|j: int| 0 <= j < name.len() ==> name[j] != 46u8,
    ensures
        rfind_dot(name) is None,
    decreases name.len(),
{
    if name.len() > 0 {
        lemma_rfind_dot_none(name.drop_last());
    }
}

/// `rfind_dot` finds the last dot.
proof fn lemma_rfind_dot_some(name: Seq<u8>, k: int)
    requires
        0 <= k < name.len(),
        name[k] == 46u8,
        forall|j: int| k < j < name.len() ==> name[j] != 46u8,
    ensures
        rfind_dot(name) == Some(k),
    decreases name.len(),
{
    if k == name.len() - 1 {
    } else {
        lemma_rfind_dot_some(name.drop_last(), k);
    }
}

/// Find the index of the final `.` of a byte string, if any.
fn rfind_dot_exec(name: &[u8]) -> (r: Option<usize>)
    ensures
        (match r {
            Some(k) => rfind_dot(name@) == Some(k as int) && k < name@.len(),
            None => rfind_dot(name@) is None,
        }),
{
    let mut i: usize = name.len();
    while i > 0
        invariant
            i <= name@.len(),
            forall|j: int| i <= j < name@.len() ==> name@[j] != 46u8,
        decreases i,
    {
        i = i - 1;
        if name[i] == 46u8 {
            proof {
                lemma_rfind_dot_some(name@, i as int);
            }
            return Some(i);
        }
    }
    proof {
        lemma_rfind_dot_none(name@);
    }
    None
}

/// ASCII-lowercase a byte string.
fn lower_bytes(b: &[u8]) -> (r: Vec<u8>)
    ensures
        r@ == b@.map_values(|x: u8| spec_lower_byte(x)),
{
    let mut r: Vec<u8> = Vec::new();
    let mut i: usize = 0;
    while i < b.len()
        invariant
            i <= b@.len(),
            r@ =~= b@.subrange(0, i as int).map_values(|x: u8| spec_lower_byte(x)),
        decreases b@.len() - i,
    {
        let x = b[i];
        if 65 <= x && x <= 90 {
            r.push(x + 32);
        } else {
            r.push(x);
        }
        proof {
            assert(r@ =~= b@.subrange(0, i + 1).map_values(|x: u8| spec_lower_byte(x)));
        }
        i = i + 1;
    }
    proof {
        assert(b@.subrange(0, b@.len() as int) =~= b@);
    }
    r
}

/// Whether a file name is a supported avatar image: its extension,
/// lowercased, is png, jpg, jpeg or gif.
pub fn is_avatar_candidate(name: &str) -> (r: bool)
    ensures
        r == spec_is_avatar_candidate(name.spec_bytes()),
{
    let bytes = name.as_bytes();
    match rfind_dot_exec(bytes) {
        None => false,
        Some(k) => {
            if k == 0 {
                return false;
            }
            let n = bytes.len();
            let mut ext: Vec<u8> = Vec::new();
            let mut i: usize = k + 1;
            while i < n
                invariant
                    n == bytes@.len(),
                    k + 1 <= i <= bytes@.len(),
                    ext@ =~= bytes@.subrange(k + 1, i as int),
                decreases bytes@.len() - i,
            {
                ext.push(bytes[i]);
                proof {
                    assert(ext@ =~= bytes@.subrange(k + 1, i + 1));
                }
                i = i + 1;
            }
            proof {
                assert(bytes@.subrange(k + 1, bytes@.len() as int) =~= bytes@.skip(k + 1));
            }
            let low = lower_bytes(ext.as_slice());
            let hit = (low.len() == 3 && low[0] == 112 && low[1] == 110 && low[2] == 103) || (
            low.len() == 3 && low[0] == 106 && low[1] == 112 && low[2] == 103) || (low.len() == 4
                && low[0] == 106 && low[1] == 112 && low[2] == 101 && low[3] == 103) || (low.len()
                == 3 && low[0] == 103 && low[1] == 105 && low[2] == 102);
            proof {
                let lowv = low@;
                if hit {
                    if lowv.len() == 3 && lowv[0] == 112 {
                        assert(lowv =~= seq![112u8, 110u8, 103u8]);
                    } else if lowv.len() == 3 && lowv[0] == 106 {
                        assert(lowv =~= seq![106u8, 112u8, 103u8]);
                    } else if lowv.len() == 4 {
                        assert(lowv =~= seq![106u8, 112u8, 101u8, 103u8]);
                    } else {
                        assert(lowv =~= seq![103u8, 105u8, 102u8]);
                    }
                } else {
                    assert(lowv != seq![112u8, 110u8, 103u8]);
                    assert(lowv != seq![106u8, 112u8, 103u8]);
                    assert(lowv != seq![106u8, 112u8, 101u8, 103u8]);
                    assert(lowv != seq![103u8, 105u8, 102u8]);
                }
            }
            hit
        },
    }
}

/// Pick the avatar to upload from a directory listing: among the file
/// names with a supported image extension, the lexicographically first
/// (by bytes, the order a name sort gives); none when no name qualifies.
pub fn pick_avatar_file(names: &Vec<String>) -> (r: Option<usize>)
    ensures
        (match r {
            Some(i) => {
                &&& i < names@.len()
                &&& spec_is_avatar_candidate(str_bytes(names@[i as int]@))
                &&& forall|j: int|
                    0 <= j < names@.len() && spec_is_avatar_candidate(
                        str_bytes((#[trigger] names@[j])@),
                    ) ==> lex_le(str_bytes(names@[i as int]@), str_bytes(names@[j]@))
            },
            None => forall|j: int|
                0 <= j < names@.len() ==> !spec_is_avatar_candidate(
                    str_bytes((#[trigger] names@[j])@),
                ),
        }),
{
    let mut best: Option<usize> = None;
    let mut idx: usize = 0;
    while idx < names.len()
        invariant
            idx <= names@.len(),
            (match best {
                Some(i) => {
                    &&& i < idx
                    &&& spec_is_avatar_candidate(str_bytes(names@[i as int]@))
                    &&& forall|j: int|
                        0 <= j < idx && spec_is_avatar_candidate(
                            str_bytes((#[trigger] names@[j])@),
                        ) ==> lex_le(
                            str_bytes(names@[i as int]@),
                            str_bytes(names@[j]@),
                        )
                },
                None => forall|j: int|
                    0 <= j < idx ==> !spec_is_avatar_candidate(
                        str_bytes((#[trigger] names@[j])@),
                    ),
            }),
        decreases names@.len() - idx,
    {
        if is_avatar_candidate(names[idx].as_str()) {
            proof {
                lemma_lex_le_refl(str_bytes(names@[idx as int]@));
            }
            match best {
                None => {
                    best = Some(idx);
                },
                Some(b) => {
                    let le = str_lex_le(names[idx].as_str(), names[b].as_str());
                    proof {
                        lemma_lex_le_total(str_bytes(names@[idx as int]@), str_bytes(names@[b as int]@));
                        if le {
                            assert forall|j: int|
                                0 <= j < idx && spec_is_avatar_candidate(
                                    str_bytes((#[trigger] names@[j])@),
                                ) implies lex_le(
                                str_bytes(names@[idx as int]@),
                                str_bytes(names@[j]@),
                            ) by {
                                lemma_lex_le_trans(
                                    str_bytes(names@[idx as int]@),
                                    str_bytes(names@[b as int]@),
                                    str_bytes(names@[j]@),
                                );
                            }
                        }
                    }
                    if le {
                        best = Some(idx);
                    }
                },
            }
        }
        idx = idx + 1;
    }
    best
}

/// The MD5 digest of a byte string: 16 bytes, a function of the input
/// alone.
pub uninterp spec fn md5_of(bytes: Seq<u8>) -> Seq<u8>;

/// Relies on md5::compute: the 16-byte MD5 digest of the input, a pure
/// function of the bytes.
#[verifier::external_body]
fn md5_digest(bytes: &Vec<u8>) -> (r: Vec<u8>)
    ensures
        r@ == md5_of(bytes@),
        r@.len() == 16,
{
    md5::compute(bytes.as_slice()).0.to_vec()
}

/// The lower-case hex character of a nibble.
pub open spec fn spec_hex_char(n: u8) -> char {
    if n == 0 {
        '0'
    } else if n == 1 {
        '1'
    } else if n == 2 {
        '2'
    } else if n == 3 {
        '3'
    } else if n == 4 {
        '4'
    } else if n == 5 {
        '5'
    } else if n == 6 {
        '6'
    } else if n == 7 {
        '7'
    } else if n == 8 {
        '8'
    } else if n == 9 {
        '9'
    } else if n == 10 {
        'a'
    } else if n == 11 {
        'b'
    } else if n == 12 {
        'c'
    } else if n == 13 {
        'd'
    } else if n == 14 {
        'e'
    } else {
        'f'
    }
}

/// The lower-case hex rendering of a byte string: two characters per
/// byte, high nibble first.
pub open spec fn spec_hex_of(bytes: Seq<u8>) -> Seq<char> {
    Seq::new(
        2 * bytes.len(),
        |i: int|
            spec_hex_char(
                if i % 2 == 0 {
                    (bytes[i / 2] / 16) as u8
                } else {
                    (bytes[i / 2] % 16) as u8
                },
            ),
    )
}

/// The one-character string of a nibble's hex character.
fn hex_char_str(n: u8) -> (r: &'static str)
    requires
        n < 16,
    ensures
        r@.len() == 1,
        r@[0] == spec_hex_char(n),
{
    proof {
        reveal_strlit("0");
        reveal_strlit("1");
        reveal_strlit("2");
        reveal_strlit("3");
        reveal_strlit("4");
        reveal_strlit("5");
        reveal_strlit("6");
        reveal_strlit("7");
        reveal_strlit("8");
        reveal_strlit("9");
        reveal_strlit("a");
        reveal_strlit("b");
        reveal_strlit("c");
        reveal_strlit("d");
        reveal_strlit("e");
        reveal_strlit("f");
    }
    if n == 0 {
        "0"
    } else if n == 1 {
        "1"
    } else if n == 2 {
        "2"
    } else if n == 3 {
        "3"
    } else if n == 4 {
        "4"
    } else if n == 5 {
        "5"
    } else if n == 6 {
        "6"
    } else if n == 7 {
        "7"
    } else if n == 8 {
        "8"
    } else if n == 9 {
        "9"
    } else if n == 10 {
        "a"
    } else if n == 11 {
        "b"
    } else if n == 12 {
        "c"
    } else if n == 13 {
        "d"
    } else if n == 14 {
        "e"
    } else {
        "f"
    }
}

/// Render a byte string as lower-case hex.
pub fn to_hex_lower(bytes: &Vec<u8>) -> (r: String)
    ensures
        r@ == spec_hex_of(bytes@),
{
    let mut r = String::new();
    let n = bytes.len();
    let mut i: usize = 0;
    while i < n
        invariant
            n == bytes@.len(),
            i <= bytes@.len(),
            r@ =~= spec_hex_of(bytes@.subrange(0, i as int)),
        decreases bytes@.len() - i,
    {
        let b = bytes[i];
        r.append(hex_char_str(b / 16));
        r.append(hex_char_str(b % 16));
        proof {
            assert(r@ =~= spec_hex_of(bytes@.subrange(0, i + 1)));
        }
        i = i + 1;
    }
    proof {
        assert(bytes@.subrange(0, bytes@.len() as int) =~= bytes@);
    }
    r
}

/// The MD5 digest of a byte string, rendered as 32 lower-case hex
/// characters — the avatar hash the TS3 wire format uses.
pub fn md5_hex(bytes: &Vec<u8>) -> (r: String)
    ensures
        r@ == spec_hex_of(md5_of(bytes@)),
        r@.len() == 32,
{
    let digest = md5_digest(bytes);
    to_hex_lower(&digest)
}

/// The remote path of an avatar upload: `/avatar_` followed by the hash.
pub fn avatar_remote_path(md5_hex: &str) -> (r: String)
    ensures
        r@ == "/avatar_"@ + md5_hex@,
{
    let mut r = String::from_str("/avatar_");
    r.append(md5_hex);
    r
}

} // verus!
