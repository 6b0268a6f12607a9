use vstd::prelude::*;

verus! {

/// Whether `c` separates words: the characters with the Unicode property
/// `White_Space`.
pub open spec fn is_blank(c: char) -> bool {
    let n = c as u32;
    ||| 0x09 <= n <= 0x0D
    ||| n == 0x20
    ||| n == 0x85
    ||| n == 0xA0
    ||| n == 0x1680
    ||| 0x2000 <= n <= 0x200A
    ||| n == 0x2028
    ||| n == 0x2029
    ||| n == 0x202F
    ||| n == 0x205F
    ||| n == 0x3000
}

/// Executable form of [`is_blank`].
pub fn is_blank_char(c: char) -> (b: bool)
    ensures
        b == is_blank(c),
{
    let n: u32 = c as u32;
    (0x09 <= n && n <= 0x0D) || n == 0x20 || n == 0x85 || n == 0xA0 || n == 0x1680 || (0x2000 <= n
        && n <= 0x200A) || n == 0x2028 || n == 0x2029 || n == 0x202F || n == 0x205F || n == 0x3000
}

/// Number of leading characters of `s` that are not blank.
pub open spec fn word_len(s: Seq<char>) -> nat
    decreases s.len(),
{
    if s.len() > 0 && !is_blank(s[0]) {
        1 + word_len(s.drop_first())
    } else {
        0
    }
}

/// The words of `s`: its maximal runs of characters that are not blank, in
/// the order in which they appear.
pub open spec fn words(s: Seq<char>) -> Seq<Seq<char>>
    decreases s.len(),
    via words_decreases
{
    if s.len() == 0 {
        Seq::empty()
    } else if is_blank(s[0]) {
        words(s.drop_first())
    } else {
        seq![s.take(word_len(s) as int)] + words(s.skip(word_len(s) as int))
    }
}

#[via_fn]
proof fn words_decreases(s: Seq<char>) {
    word_len_is_run(s);
}

/// A run of non-blank characters that ends at a blank or at the end of the
/// text is exactly the leading word.
pub proof fn word_len_of_run(s: Seq<char>, n: int)
    requires
        0 <= n <= s.len(),
        forall|k: int| 0 <= k < n ==> !is_blank(#[trigger] s[k]),
        n == s.len() || is_blank(s[n]),
    ensures
        word_len(s) == n,
    decreases n,
{
    if n > 0 {
        let t = s.drop_first();
        assert forall|k: int| 0 <= k < n - 1 implies !is_blank(#[trigger] t[k]) by {
            assert(t[k] == s[k + 1]);
        }
        word_len_of_run(t, n - 1);
    }
}

/// Whether `s` is a word: not empty, and without a blank.
pub open spec fn is_word(s: Seq<char>) -> bool {
    s.len() > 0 && forall|i: int| 0 <= i < s.len() ==> !is_blank(#[trigger] s[i])
}

/// The leading word holds no blank, and a blank or the end of the text
/// follows it.
pub proof fn word_len_is_run(s: Seq<char>)
    ensures
        word_len(s) <= s.len(),
        forall|k: int| 0 <= k < word_len(s) ==> !is_blank(#[trigger] s[k]),
        word_len(s) == s.len() || is_blank(s[word_len(s) as int]),
    decreases s.len(),
{
    if s.len() > 0 && !is_blank(s[0]) {
        let t = s.drop_first();
        word_len_is_run(t);
        assert forall|k: int| 0 <= k < word_len(s) implies !is_blank(#[trigger] s[k]) by {
            if k > 0 {
                assert(s[k] == t[k - 1]);
            }
        }
        if word_len(s) != s.len() {
            assert(s[word_len(s) as int] == t[word_len(t) as int]);
        }
    }
}

/// The words of two texts put together are the words of the first, then
/// those of the second, where the second is empty or starts with a blank.
pub proof fn words_concat(s: Seq<char>, t: Seq<char>)
    requires
        t.len() > 0 ==> is_blank(t[0]),
    ensures
        words(s + t) == words(s) + words(t),
    decreases s.len(),
{
    if s.len() == 0 {
        assert(s + t =~= t);
        assert(words(s) + words(t) =~= words(t));
    } else if is_blank(s[0]) {
        assert((s + t).drop_first() =~= s.drop_first() + t);
        words_concat(s.drop_first(), t);
    } else {
        let n = word_len(s) as int;
        word_len_is_run(s);
        assert forall|k: int| 0 <= k < n implies !is_blank(#[trigger] (s + t)[k]) by {
            assert((s + t)[k] == s[k]);
        }
        if n < s.len() {
            assert((s + t)[n] == s[n]);
        } else if t.len() > 0 {
            assert((s + t)[n] == t[0]);
        }
        word_len_of_run(s + t, n);
        assert((s + t).take(n) =~= s.take(n));
        assert((s + t).skip(n) =~= s.skip(n) + t);
        words_concat(s.skip(n), t);
        assert(seq![s.take(n)] + (words(s.skip(n)) + words(t)) =~= (seq![s.take(n)] + words(
            s.skip(n),
        )) + words(t));
    }
}

/// A word is the only word of itself.
pub proof fn words_of_word(w: Seq<char>)
    requires
        is_word(w),
    ensures
        words(w) == seq![w],
{
    word_len_of_run(w, w.len() as int);
    assert(w.take(w.len() as int) =~= w);
    assert(w.skip(w.len() as int) =~= Seq::<char>::empty());
    assert(words(Seq::<char>::empty()) =~= Seq::<Seq<char>>::empty());
    assert(seq![w] + Seq::<Seq<char>>::empty() =~= seq![w]);
}

/// Every word of a text is a word: none is empty, and none holds a blank.
pub proof fn words_are_words(s: Seq<char>)
    ensures
        forall|i: int| 0 <= i < words(s).len() ==> is_word(#[trigger] words(s)[i]),
    decreases s.len(),
{
    if s.len() == 0 {
        assert(words(s).len() == 0);
    } else if is_blank(s[0]) {
        words_are_words(s.drop_first());
        assert(words(s) == words(s.drop_first()));
    } else {
        let n = word_len(s) as int;
        word_len_is_run(s);
        words_are_words(s.skip(n));
        let first = s.take(n);
        assert(words(s) == seq![first] + words(s.skip(n)));
        assert forall|i: int| 0 <= i < words(s).len() implies is_word(#[trigger] words(s)[i]) by {
            if i == 0 {
                assert(words(s)[0] == first);
                assert forall|k: int| 0 <= k < first.len() implies !is_blank(
                    #[trigger] first[k],
                ) by {
                    assert(first[k] == s[k]);
                }
            } else {
                assert(words(s)[i] == words(s.skip(n))[i - 1]);
            }
        }
    }
}

/// The texts of a list of strings.
pub open spec fn texts(v: Seq<String>) -> Seq<Seq<char>> {
    v.map_values(|s: String| s@)
}

/// Skipping a leading blank leaves the words unchanged.
pub proof fn words_skip_blank(s: Seq<char>, i: int)
    requires
        0 <= i < s.len(),
        is_blank(s[i]),
    ensures
        words(s.skip(i)) == words(s.skip(i + 1)),
{
    assert(s.skip(i).drop_first() =~= s.skip(i + 1));
}

/// A run of non-blank characters from `i` to `j` that ends at a blank or at
/// the end of the text is the first word of what starts at `i`.
pub proof fn words_take_word(s: Seq<char>, i: int, j: int)
    requires
        0 <= i < j <= s.len(),
        forall|k: int| i <= k < j ==> !is_blank(#[trigger] s[k]),
        j == s.len() || is_blank(s[j]),
    ensures
        words(s.skip(i)) == seq![s.subrange(i, j)] + words(s.skip(j)),
{
    let t = s.skip(i);
    assert forall|k: int| 0 <= k < j - i implies !is_blank(#[trigger] t[k]) by {
        assert(t[k] == s[i + k]);
    }
    word_len_of_run(t, j - i);
    assert(t.take(j - i) =~= s.subrange(i, j));
    assert(t.skip(j - i) =~= s.skip(j));
}

/// Splits `line` into its words.
pub fn split_words(line: &str) -> (out: Vec<String>)
    ensures
        texts(out@) == words(line@),
{
    let mut out: Vec<String> = Vec::new();
    let mut start: usize = 0;
    let mut inside: bool = false;
    let mut pos: usize = 0;
    let total: usize = line.unicode_len();
    proof {
        assert(line@.skip(0) =~= line@);
        assert(texts(out@) + words(line@) =~= words(line@));
    }
    for c in it: line.chars()
        invariant
            it.seq() == line@,
            pos == it.index(),
            total == line@.len(),
            inside ==> start < pos,
            inside ==> forall|k: int| start <= k < pos ==> !is_blank(#[trigger] line@[k]),
            words(line@) == texts(out@) + words(
                line@.skip(
                    if inside {
                        start as int
                    } else {
                        pos as int
                    },
                ),
            ),
    {
        let blank = is_blank_char(c);
        if inside && blank {
            let word = line.substring_char(start, pos).to_owned();
            proof {
                words_take_word(line@, start as int, pos as int);
                words_skip_blank(line@, pos as int);
                assert(texts(out@.push(word)) =~= texts(out@) + seq![word@]);
                assert(texts(out@) + (seq![word@] + words(line@.skip(pos + 1))) =~= texts(
                    out@.push(word),
                ) + words(line@.skip(pos + 1)));
            }
            out.push(word);
            inside = false;
        } else if !inside && !blank {
            start = pos;
            inside = true;
        } else if !inside {
            proof {
                words_skip_blank(line@, pos as int);
            }
        }
        pos = pos + 1;
    }
    if inside {
        let word = line.substring_char(start, total).to_owned();
        proof {
            words_take_word(line@, start as int, total as int);
            assert(words(line@.skip(total as int)) =~= Seq::<Seq<char>>::empty());
            assert(texts(out@.push(word)) =~= texts(out@) + seq![word@]);
        }
        out.push(word);
    } else {
        proof {
            assert(words(line@.skip(total as int)) =~= Seq::<Seq<char>>::empty());
            assert(texts(out@) + Seq::<Seq<char>>::empty() =~= texts(out@));
        }
    }
    out
}

} // verus!
