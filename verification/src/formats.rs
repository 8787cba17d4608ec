//! The fixed allow-list of audio formats and the extension of a file name.

use vstd::prelude::*;
use vstd::string::*;
use crate::text::{
    is_lower, lemma_lower_fixed, lemma_lower_seq_is_lower, lower_char, lower_seq, owned_text,
    same_text, texts, to_lower,
};

verus! {

/// The recognised audio extensions: lower case, without the dot, in their fixed order.
pub open spec fn supported_formats() -> Seq<Seq<char>> {
    seq![
        seq!['m', 'p', '3'],
        seq!['w', 'a', 'v'],
        seq!['o', 'g', 'g'],
        seq!['m', '4', 'a'],
        seq!['a', 'a', 'c'],
        seq!['f', 'l', 'a', 'c'],
        seq!['w', 'm', 'a'],
    ]
}

/// Whether `ext` is, character for character, one of the recognised extensions.
pub open spec fn is_supported(ext: Seq<char>) -> bool {
    supported_formats().contains(ext)
}

/// The position of the last `.` in `name`, or -1 where it holds none.
pub open spec fn last_dot(name: Seq<char>) -> int
    decreases name.len(),
{
    if name.len() == 0 {
        -1
    } else if name.last() == '.' {
        name.len() - 1
    } else {
        last_dot(name.drop_last())
    }
}

/// The extension of a file name: what follows its last `.`, provided that dot
/// is not the name's first character. A name without a dot, or whose only dot
/// leads it, has none.
pub open spec fn extension_of(name: Seq<char>) -> Option<Seq<char>> {
    let d = last_dot(name);
    if d <= 0 {
        None
    } else {
        Some(name.subrange(d + 1, name.len() as int))
    }
}

/// The lower-cased extension of `name` where that is a recognised audio
/// extension, and nothing otherwise.
pub open spec fn audio_extension_of(name: Seq<char>) -> Option<Seq<char>> {
    match extension_of(name) {
        Some(ext) => if is_supported(lower_seq(ext)) {
            Some(lower_seq(ext))
        } else {
            None
        },
        None => None,
    }
}

/// `last_dot` is the greatest index that holds a dot.
pub proof fn lemma_last_dot(name: Seq<char>)
    ensures
        -1 <= last_dot(name) < name.len(),
        last_dot(name) >= 0 ==> name[last_dot(name)] == '.',
        forall|j: int| last_dot(name) < j < name.len() ==> name[j] != '.',
    decreases name.len(),
{
    if name.len() > 0 && name.last() != '.' {
        let front = name.drop_last();
        lemma_last_dot(front);
        assert forall|j: int| last_dot(name) < j < name.len() implies name[j] != '.' by {
            if j < front.len() {
                assert(front[j] == name[j]);
            }
        }
    }
}

/// The allow-list, in its fixed order.
pub fn get_supported_audio_formats() -> (r: Vec<String>)
    ensures
        texts(r@) == supported_formats(),
{
    proof {
        reveal_strlit("mp3");
        reveal_strlit("wav");
        reveal_strlit("ogg");
        reveal_strlit("m4a");
        reveal_strlit("aac");
        reveal_strlit("flac");
        reveal_strlit("wma");
    }
    let mut out: Vec<String> = Vec::new();
    out.push(String::from_str("mp3"));
    out.push(String::from_str("wav"));
    out.push(String::from_str("ogg"));
    out.push(String::from_str("m4a"));
    out.push(String::from_str("aac"));
    out.push(String::from_str("flac"));
    out.push(String::from_str("wma"));
    assert forall|i: int| 0 <= i < 7 implies texts(out@)[i] == supported_formats()[i] by {
        assert(out@[i]@ =~= supported_formats()[i]);
    }
    assert(texts(out@) =~= supported_formats());
    out
}

/// Whether `ext` equals one of the recognised extensions exactly.
pub fn is_supported_extension(ext: &str) -> (r: bool)
    ensures
        r == is_supported(ext@),
{
    proof {
        reveal_strlit("mp3");
        reveal_strlit("wav");
        reveal_strlit("ogg");
        reveal_strlit("m4a");
        reveal_strlit("aac");
        reveal_strlit("flac");
        reveal_strlit("wma");
    }
    let r = same_text(ext, "mp3") || same_text(ext, "wav") || same_text(ext, "ogg") || same_text(
        ext,
        "m4a",
    ) || same_text(ext, "aac") || same_text(ext, "flac") || same_text(ext, "wma");
    proof {
        let f = supported_formats();
        assert("mp3"@ =~= f[0]);
        assert("wav"@ =~= f[1]);
        assert("ogg"@ =~= f[2]);
        assert("m4a"@ =~= f[3]);
        assert("aac"@ =~= f[4]);
        assert("flac"@ =~= f[5]);
        assert("wma"@ =~= f[6]);
    }
    r
}

/// The extension of a file name, as `extension_of` defines it.
pub fn file_extension(name: &str) -> (r: Option<String>)
    ensures
        owned_text(r) == extension_of(name@),
{
    let n: usize = name.unicode_len();
    let mut i: usize = n;
    proof {
        lemma_last_dot(name@);
    }
    while i > 0
        invariant
            n == name@.len(),
            i <= n,
            last_dot(name@) < i,
        decreases i,
    {
        proof {
            lemma_last_dot(name@);
        }
        if name.get_char(i - 1) == '.' {
            if i == 1 {
                return None;
            }
            return Some(String::from_str(name.substring_char(i, n)));
        }
        i -= 1;
    }
    None
}

/// The lower-cased extension of `name` where it is a recognised audio
/// extension; `None` for a name without extension or with any other one.
pub fn audio_extension(name: &str) -> (r: Option<String>)
    ensures
        owned_text(r) == audio_extension_of(name@),
{
    match file_extension(name) {
        Some(ext) => {
            let lowered = to_lower(ext.as_str());
            if is_supported_extension(lowered.as_str()) {
                Some(lowered)
            } else {
                None
            }
        },
        None => None,
    }
}

/// Every recognised extension is lower case, so it is its own lower-case form.
pub proof fn lemma_supported_is_lower(ext: Seq<char>)
    requires
        is_supported(ext),
    ensures
        is_lower(ext),
        lower_seq(ext) == ext,
{
    let f = supported_formats();
    let k = choose|k: int| 0 <= k < f.len() && f[k] == ext;
    assert(f.len() == 7);
    assert(is_lower(f[0]) && is_lower(f[1]) && is_lower(f[2]) && is_lower(f[3]) && is_lower(f[4])
        && is_lower(f[5]) && is_lower(f[6]));
    lemma_lower_fixed(ext);
}

/// Whatever the casing of a name's extension, the name is recognised exactly
/// when the lower-cased extension is on the allow-list, and the extension
/// reported for it is that lower-case form.
pub proof fn lemma_audio_extension_case_insensitive(name: Seq<char>)
    ensures
        audio_extension_of(name).is_some() <==> (extension_of(name).is_some() && is_supported(
            lower_seq(extension_of(name).unwrap()),
        )),
        audio_extension_of(name).is_some() ==> {
            let ext = audio_extension_of(name).unwrap();
            &&& ext == lower_seq(extension_of(name).unwrap())
            &&& is_supported(ext)
            &&& is_lower(ext)
        },
{
    if audio_extension_of(name).is_some() {
        lemma_lower_seq_is_lower(extension_of(name).unwrap());
    }
}

/// Whether a sequence holds no dot.
pub open spec fn dot_free(s: Seq<char>) -> bool {
    forall|i: int| 0 <= i < s.len() ==> #[trigger] s[i] != '.'
}

/// No recognised extension holds a dot, in any casing.
pub proof fn lemma_supported_has_no_dot(ext: Seq<char>)
    requires
        is_supported(lower_seq(ext)),
    ensures
        dot_free(ext),
{
    let f = supported_formats();
    let low = lower_seq(ext);
    let k = choose|k: int| 0 <= k < f.len() && f[k] == low;
    assert(f.len() == 7);
    assert(dot_free(f[0]) && dot_free(f[1]) && dot_free(f[2]) && dot_free(f[3]) && dot_free(f[4])
        && dot_free(f[5]) && dot_free(f[6]));
    assert forall|i: int| 0 <= i < ext.len() implies #[trigger] ext[i] != '.' by {
        assert(low[i] == lower_char(ext[i]));
        assert(low[i] != '.');
    }
}

/// The extension of a name made of a non-empty stem, a dot and a dot-free
/// `ext` is `ext`.
pub proof fn lemma_extension_of_dotted(stem: Seq<char>, ext: Seq<char>)
    requires
        stem.len() > 0,
        dot_free(ext),
    ensures
        extension_of(stem + seq!['.'] + ext) == Some(ext),
{
    let name = stem + seq!['.'] + ext;
    lemma_last_dot(name);
    let d = last_dot(name);
    assert(name[stem.len() as int] == '.');
    if d > stem.len() {
        assert(name[d] == ext[d - stem.len() - 1]);
    }
    assert(d == stem.len());
    assert(name.subrange(d + 1, name.len() as int) =~= ext);
}

/// A name made of a non-empty stem, a dot and a recognised extension in any
/// casing is an audio file's name, and its extension is reported in lower case.
pub proof fn lemma_named_audio_extension(stem: Seq<char>, ext: Seq<char>)
    requires
        stem.len() > 0,
        is_supported(lower_seq(ext)),
    ensures
        audio_extension_of(stem + seq!['.'] + ext) == Some(lower_seq(ext)),
{
    lemma_supported_has_no_dot(ext);
    lemma_extension_of_dotted(stem, ext);
}

/// A name made of a non-empty stem, a dot and a dot-free extension that is
/// not recognised in lower case is no audio file's name.
pub proof fn lemma_named_other_extension(stem: Seq<char>, ext: Seq<char>)
    requires
        stem.len() > 0,
        dot_free(ext),
        !is_supported(lower_seq(ext)),
    ensures
        audio_extension_of(stem + seq!['.'] + ext).is_none(),
{
    lemma_extension_of_dotted(stem, ext);
}

} // verus!
