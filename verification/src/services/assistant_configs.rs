//! Where assistant configurations are stored and how they are listed; the
//! application reads and writes the files.

use crate::services::file_explorer::{path_ref, path_ref_of, PathRef};
use crate::shared::assistant_config::{AssistantConfig, StoredAssistant};
use crate::shared::text::{
    char_is_whitespace, chars_of, extend_chars, is_whitespace, str_eq, string_of, subvec, trim,
    trim_spec,
};
use vstd::prelude::*;
use vstd::string::StrSliceExecFns;

verus! {

/// The directory, relative to the working directory, that holds the
/// configuration files.
pub const CONFIGS_DIR: &'static str = "harness_configs";

/// The extension of `path` as `std::path::Path::extension` reads it under Unix
/// rules (the file name is what follows the last `/`), as text.
pub uninterp spec fn path_extension(path: Seq<char>) -> Option<Seq<char>>;

/// Wraps `Path::new(path).extension()`, read back as text; the result is
/// named `path_extension`. The extension of a path given as UTF-8 text is
/// UTF-8 too.
#[verifier::external_body]
fn extension_of(path: &str) -> (r: Option<String>)
    ensures
        match r {
            Some(e) => path_extension(path@) == Some(e@),
            None => path_extension(path@) is None,
        },
{
    std::path::Path::new(path).extension().map(|e| e.to_string_lossy().into_owned())
}

/// A configuration file's name for an assistant called `name`: the trimmed
/// name with every `/`, `\` and whitespace character replaced by `-`.
pub open spec fn config_file_stem(name: Seq<char>) -> Seq<char> {
    trim_spec(name).map_values(
        |c: char|
            if c == '/' || c == '\\' || char_is_whitespace(c) {
                '-'
            } else {
                c
            },
    )
}

/// The file an assistant called `name` is saved to.
pub open spec fn config_file_path(name: Seq<char>) -> Seq<char> {
    CONFIGS_DIR@ + seq!['/'] + config_file_stem(name) + seq!['.', 'y', 'm', 'l']
}

/// The file name for an assistant called `name` (see `config_file_stem`).
pub fn config_file_name(name: &str) -> (r: String)
    ensures
        r@ == config_file_stem(name@),
{
    let chars = chars_of(trim(name));
    let mut out: Vec<char> = Vec::new();
    let mut i: usize = 0;
    while i < chars.len()
        invariant
            chars@ == trim_spec(name@),
            i <= chars@.len(),
            out@ == chars@.subrange(0, i as int).map_values(
                |c: char|
                    if c == '/' || c == '\\' || char_is_whitespace(c) {
                        '-'
                    } else {
                        c
                    },
            ),
        decreases chars@.len() - i,
    {
        let c = chars[i];
        if c == '/' || c == '\\' || is_whitespace(c) {
            out.push('-');
        } else {
            out.push(c);
        }
        assert(chars@.subrange(0, i + 1) =~= chars@.subrange(0, i as int).push(c));
        i = i + 1;
    }
    assert(chars@.subrange(0, chars@.len() as int) =~= chars@);
    string_of(&out)
}

/// The file `config` is saved to: `harness_configs/<file name>.yml`.
pub fn config_path(config: &AssistantConfig) -> (r: String)
    ensures
        r@ == config_file_path(config.name@),
{
    let mut path = chars_of(CONFIGS_DIR);
    path.push('/');
    let stem = config_file_name(config.name.as_str());
    extend_chars(&mut path, &chars_of(stem.as_str()));
    let ext: Vec<char> = vec!['.', 'y', 'm', 'l'];
    extend_chars(&mut path, &ext);
    assert(path@ =~= config_file_path(config.name@));
    string_of(&path)
}

/// Whether a directory entry is a configuration file: its extension is `yml`.
pub fn is_config_path(path: &str) -> (r: bool)
    ensures
        r == (path_extension(path@) == Some(seq!['y', 'm', 'l'])),
{
    match extension_of(path) {
        Some(ext) => {
            let yml: Vec<char> = vec!['y', 'm', 'l'];
            assert(yml@ =~= seq!['y', 'm', 'l']);
            let yml_text = string_of(&yml);
            str_eq(ext.as_str(), yml_text.as_str())
        },
        None => false,
    }
}

/// Where an assistant's system prompt is read from: its configured path,
/// trimmed and without a leading `@`; a leading `~` stands for the home
/// directory.
pub open spec fn prompt_path(config: AssistantConfig) -> Seq<char> {
    let raw = trim_spec(config.system_prompt_path@);
    if raw.len() > 0 && raw[0] == '@' {
        raw.subrange(1, raw.len() as int)
    } else {
        raw
    }
}

/// Where `config`'s system prompt is read from (see `prompt_path`).
pub fn system_prompt_location(config: &AssistantConfig) -> (r: PathRef)
    ensures
        match r {
            PathRef::Plain(p) => !path_ref_of(prompt_path(*config)).0 && p@ == path_ref_of(
                prompt_path(*config),
            ).1,
            PathRef::UnderHome(rest) => path_ref_of(prompt_path(*config)).0 && rest@
                == path_ref_of(prompt_path(*config)).1,
        },
{
    let raw = chars_of(trim(config.system_prompt_path.as_str()));
    let path = if raw.len() > 0 && raw[0] == '@' {
        subvec(&raw, 1, raw.len())
    } else {
        raw
    };
    let text = string_of(&path);
    path_ref(text.as_str())
}

/// Whether `a` comes before `b` or equals it, comparing character by
/// character by code point, a prefix first (the order of `String`'s `Ord`,
/// which compares UTF-8 bytes, and UTF-8 keeps the order of code points).
pub open spec fn text_le(a: Seq<char>, b: Seq<char>) -> bool
    decreases a.len(),
{
    if a.len() == 0 {
        true
    } else if b.len() == 0 {
        false
    } else if a[0] != b[0] {
        (a[0] as int) < (b[0] as int)
    } else {
        text_le(a.drop_first(), b.drop_first())
    }
}

/// Any two texts are ordered one way or the other.
pub proof fn lemma_text_le_total(a: Seq<char>, b: Seq<char>)
    ensures
        text_le(a, b) || text_le(b, a),
    decreases a.len(),
{
    if a.len() > 0 && b.len() > 0 {
        if a[0] == b[0] {
            lemma_text_le_total(a.drop_first(), b.drop_first());
        }
    }
}

/// The order is transitive.
pub proof fn lemma_text_le_trans(a: Seq<char>, b: Seq<char>, c: Seq<char>)
    requires
        text_le(a, b),
        text_le(b, c),
    ensures
        text_le(a, c),
    decreases a.len(),
{
    if a.len() > 0 && b.len() > 0 && c.len() > 0 && a[0] == b[0] && b[0] == c[0] {
        lemma_text_le_trans(a.drop_first(), b.drop_first(), c.drop_first());
    }
}

/// Texts ordered both ways are equal.
pub proof fn lemma_text_le_antisym(a: Seq<char>, b: Seq<char>)
    requires
        text_le(a, b),
        text_le(b, a),
    ensures
        a == b,
    decreases a.len(),
{
    if a.len() > 0 && b.len() > 0 {
        lemma_text_le_antisym(a.drop_first(), b.drop_first());
        assert(a =~= seq![a[0]] + a.drop_first());
        assert(b =~= seq![b[0]] + b.drop_first());
    }
}

/// Whether `a` comes before `b` or equals it (see `text_le`).
pub fn text_le_exec(a: &str, b: &str) -> (r: bool)
    ensures
        r == text_le(a@, b@),
{
    let n = a.unicode_len();
    let m = b.unicode_len();
    let mut i: usize = 0;
    assert(a@.subrange(0, n as int) =~= a@);
    assert(b@.subrange(0, m as int) =~= b@);
    loop
        invariant
            n == a@.len(),
            m == b@.len(),
            i <= n,
            i <= m,
            text_le(a@, b@) == text_le(
                a@.subrange(i as int, n as int),
                b@.subrange(i as int, m as int),
            ),
        decreases n - i,
    {
        let ghost sa = a@.subrange(i as int, n as int);
        let ghost sb = b@.subrange(i as int, m as int);
        if i == n {
            return true;
        }
        if i == m {
            return false;
        }
        let x = a.get_char(i);
        let y = b.get_char(i);
        assert(sa[0] == x && sb[0] == y);
        if x != y {
            return x < y;
        }
        assert(sa.drop_first() =~= a@.subrange(i + 1, n as int));
        assert(sb.drop_first() =~= b@.subrange(i + 1, m as int));
        i = i + 1;
    }
}

/// The assistants are in name order.
pub open spec fn sorted_by_name(s: Seq<StoredAssistant>) -> bool {
    forall|i: int, j: int|
        0 <= i < j < s.len() ==> text_le(#[trigger] s[i].config.name@, #[trigger] s[j].config.name@)
}

/// The assistants named `n`, in order.
pub open spec fn named(s: Seq<StoredAssistant>, n: Seq<char>) -> Seq<StoredAssistant>
    decreases s.len(),
{
    if s.len() == 0 {
        Seq::empty()
    } else {
        let r = named(s.drop_last(), n);
        if s.last().config.name@ == n {
            r.push(s.last())
        } else {
            r
        }
    }
}

/// Picking the assistants named `n` distributes over concatenation.
proof fn lemma_named_add(a: Seq<StoredAssistant>, b: Seq<StoredAssistant>, n: Seq<char>)
    ensures
        named(a + b, n) == named(a, n) + named(b, n),
    decreases b.len(),
{
    if b.len() == 0 {
        assert(a + b =~= a);
        assert(named(a, n) + named(b, n) =~= named(a, n));
    } else {
        assert((a + b).drop_last() =~= a + b.drop_last());
        lemma_named_add(a, b.drop_last(), n);
        if b.last().config.name@ == n {
            assert(named(a, n) + named(b.drop_last(), n).push(b.last()) =~= (named(a, n) + named(
                b.drop_last(),
                n,
            )).push(b.last()));
        }
    }
}

/// No assistant of `s` is named `n`: none is picked.
proof fn lemma_named_none(s: Seq<StoredAssistant>, n: Seq<char>)
    requires
        forall|i: int| 0 <= i < s.len() ==> #[trigger] s[i].config.name@ != n,
    ensures
        named(s, n) == Seq::<StoredAssistant>::empty(),
    decreases s.len(),
{
    if s.len() > 0 {
        assert forall|i: int| 0 <= i < s.drop_last().len() implies #[trigger] s.drop_last()[i].config.name@ != n by {
            assert(s.drop_last()[i] == s[i]);
        }
        lemma_named_none(s.drop_last(), n);
    }
}

/// Inserting `x` at `p` adds it to the assistants named `n` at the end, when
/// nothing after `p` bears its name.
proof fn lemma_named_insert(s: Seq<StoredAssistant>, p: int, x: StoredAssistant, n: Seq<char>)
    requires
        0 <= p <= s.len(),
        x.config.name@ == n ==> forall|q: int| p <= q < s.len() ==> #[trigger] s[q].config.name@ != n,
    ensures
        named(s.insert(p, x), n) == if x.config.name@ == n {
            named(s, n).push(x)
        } else {
            named(s, n)
        },
{
    let pre = s.subrange(0, p);
    let post = s.subrange(p, s.len() as int);
    assert(s =~= pre + post);
    assert(s.insert(p, x) =~= pre + seq![x] + post);
    lemma_named_add(pre + seq![x], post, n);
    lemma_named_add(pre, seq![x], n);
    lemma_named_add(pre, post, n);
    assert(seq![x].drop_last() =~= Seq::<StoredAssistant>::empty());
    assert(named(Seq::<StoredAssistant>::empty(), n) == Seq::<StoredAssistant>::empty());
    assert(named(seq![x], n) == if x.config.name@ == n {
        seq![x]
    } else {
        Seq::<StoredAssistant>::empty()
    }) by {
        assert(Seq::<StoredAssistant>::empty().push(x) =~= seq![x]);
    }
    assert(named(s.insert(p, x), n) == named(pre, n) + named(seq![x], n) + named(post, n));
    assert(named(s, n) == named(pre, n) + named(post, n));
    if x.config.name@ == n {
        assert forall|q: int| 0 <= q < post.len() implies #[trigger] post[q].config.name@ != n by {
            assert(post[q] == s[p + q]);
        }
        lemma_named_none(post, n);
        assert(named(pre, n) + seq![x] + Seq::<StoredAssistant>::empty() =~= named(pre, n).push(x));
        assert(named(pre, n) + Seq::<StoredAssistant>::empty() =~= named(pre, n));
    } else {
        assert(named(pre, n) + Seq::<StoredAssistant>::empty() =~= named(pre, n));
    }
}

/// Sorts the assistants by name, keeping the order of those with the same
/// name.
pub fn sort_by_name(assistants: Vec<StoredAssistant>) -> (r: Vec<StoredAssistant>)
    ensures
        r@.len() == assistants@.len(),
        sorted_by_name(r@),
        forall|n: Seq<char>| #[trigger] named(r@, n) == named(assistants@, n),
{
    let mut out: Vec<StoredAssistant> = Vec::new();
    let mut i: usize = 0;
    while i < assistants.len()
        invariant
            i <= assistants@.len(),
            out@.len() == i,
            sorted_by_name(out@),
            forall|n: Seq<char>| #[trigger] named(out@, n) == named(assistants@.subrange(0, i as int), n),
        decreases assistants@.len() - i,
    {
        let x = assistants[i].clone();
        let mut p: usize = 0;
        while p < out.len()
            invariant_except_break
                p <= out@.len(),
                forall|j: int| 0 <= j < p ==> text_le(#[trigger] out@[j].config.name@, x.config.name@),
            invariant
                p <= out@.len(),
                forall|j: int| 0 <= j < p ==> text_le(#[trigger] out@[j].config.name@, x.config.name@),
            ensures
                p == out@.len() || !text_le(out@[p as int].config.name@, x.config.name@),
            decreases out@.len() - p,
        {
            if !text_le_exec(out[p].config.name.as_str(), x.config.name.as_str()) {
                break;
            }
            p = p + 1;
        }
        let ghost old_out = out@;
        out.insert(p, x);
        proof {
            let xn = x.config.name@;
            assert(out@ =~= old_out.subrange(0, p as int) + seq![x] + old_out.subrange(p as int, old_out.len() as int));
            // the new element is ordered before everything after it
            assert forall|q: int| p <= q < old_out.len() implies text_le(xn, #[trigger] old_out[q].config.name@) by {
                lemma_text_le_total(old_out[p as int].config.name@, xn);
                if q > p {
                    lemma_text_le_trans(xn, old_out[p as int].config.name@, old_out[q].config.name@);
                }
            }
            assert forall|a: int, b: int| 0 <= a < b < out@.len() implies text_le(#[trigger] out@[a].config.name@, #[trigger] out@[b].config.name@) by {
                if b < p {
                    assert(out@[a] == old_out[a] && out@[b] == old_out[b]);
                } else if b == p {
                    assert(out@[a] == old_out[a]);
                } else if a < p {
                    assert(out@[a] == old_out[a] && out@[b] == old_out[b - 1]);
                    lemma_text_le_trans(old_out[a].config.name@, xn, old_out[b - 1].config.name@);
                } else if a == p {
                    assert(out@[b] == old_out[b - 1]);
                } else {
                    assert(out@[a] == old_out[a - 1] && out@[b] == old_out[b - 1]);
                }
            }
            let pre = old_out.subrange(0, p as int);
            let post = old_out.subrange(p as int, old_out.len() as int);
            assert(old_out =~= pre + post);
            assert(assistants@.subrange(0, i + 1).drop_last() =~= assistants@.subrange(0, i as int));
            assert forall|n: Seq<char>| #[trigger] named(out@, n) == named(assistants@.subrange(0, i + 1), n) by {
                assert(named(old_out, n) == named(assistants@.subrange(0, i as int), n));
                assert(assistants@.subrange(0, i + 1).last() == x);
                if xn == n {
                    assert forall|q: int| p <= q < old_out.len() implies #[trigger] old_out[q].config.name@ != n by {
                        if old_out[q].config.name@ == n && q > p {
                            assert(text_le(old_out[p as int].config.name@, old_out[q].config.name@));
                        }
                    }
                }
                lemma_named_insert(old_out, p as int, x, n);
            }
        }
        i = i + 1;
    }
    assert(assistants@.subrange(0, assistants@.len() as int) =~= assistants@);
    out
}

} // verus!
