//! Team scores and word counts, kept in string maps.
use crate::string_map::StringMap;
use vstd::prelude::*;

verus! {

/// Whether `c` is white space in the sense of Unicode's `White_Space`
/// property.
pub open spec fn is_white_space(c: char) -> bool {
    ||| c == ' '
    ||| '\t' <= c <= '\r'
    ||| c == '\u{85}'
    ||| c == '\u{a0}'
    ||| c == '\u{1680}'
    ||| '\u{2000}' <= c <= '\u{200a}'
    ||| c == '\u{2028}'
    ||| c == '\u{2029}'
    ||| c == '\u{202f}'
    ||| c == '\u{205f}'
    ||| c == '\u{3000}'
}

/// Whether `c` is white space.
pub fn is_white_space_char(c: char) -> (r: bool)
    ensures
        r == is_white_space(c),
{
    c == ' ' || ('\t' <= c && c <= '\r') || c == '\u{85}' || c == '\u{a0}' || c == '\u{1680}' || (
    '\u{2000}' <= c && c <= '\u{200a}') || c == '\u{2028}' || c == '\u{2029}' || c == '\u{202f}'
        || c == '\u{205f}' || c == '\u{3000}'
}

/// The words of `t`: its longest runs of characters that are not white
/// space, in order.
pub open spec fn words(t: Seq<char>) -> Seq<Seq<char>>
    decreases t.len(),
{
    if t.len() == 0 {
        Seq::empty()
    } else {
        let w = words(t.drop_last());
        let c = t.last();
        if is_white_space(c) {
            w
        } else if t.len() >= 2 && !is_white_space(t[t.len() - 2]) {
            w.update(w.len() - 1, w.last().push(c))
        } else {
            w.push(seq![c])
        }
    }
}

/// How often each word occurs in `ws`.
pub open spec fn tally(ws: Seq<Seq<char>>) -> Map<Seq<char>, int>
    decreases ws.len(),
{
    if ws.len() == 0 {
        Map::empty()
    } else {
        let m = tally(ws.drop_last());
        let w = ws.last();
        m.insert(
            w,
            if m.contains_key(w) {
                m[w] + 1
            } else {
                1
            },
        )
    }
}

proof fn lemma_words_len(t: Seq<char>)
    ensures
        words(t).len() <= t.len(),
        t.len() > 0 && !is_white_space(t.last()) ==> words(t).len() > 0,
    decreases t.len(),
{
    if t.len() > 0 {
        lemma_words_len(t.drop_last());
    }
}

proof fn lemma_tally_bounded(ws: Seq<Seq<char>>)
    ensures
        forall|w: Seq<char>| #[trigger] tally(ws).contains_key(w) ==> 1 <= tally(ws)[w] <= ws.len(),
    decreases ws.len(),
{
    if ws.len() > 0 {
        let m = tally(ws.drop_last());
        lemma_tally_bounded(ws.drop_last());
        assert forall|w: Seq<char>| #[trigger] tally(ws).contains_key(w) implies 1 <= tally(ws)[w]
            <= ws.len() by {
            if w != ws.last() {
                assert(m.contains_key(w));
            }
        }
    }
}

/// The words of `text`, in order.
pub fn split_words(text: &str) -> (r: Vec<String>)
    ensures
        r@.map_values(|s: String| s@) == words(text@),
{
    let n = text.unicode_len();
    let mut out: Vec<String> = Vec::new();
    let mut start: usize = 0;
    let mut in_word = false;
    let mut i: usize = 0;
    while i < n
        invariant
            i <= n,
            n == text@.len(),
            start <= i,
            in_word ==> start < i,
            in_word ==> forall|j: int| start <= j < i ==> !is_white_space(#[trigger] text@[j]),
            !in_word && i > 0 ==> is_white_space(text@[i - 1]),
            words(text@.take(i as int)) == out@.map_values(|s: String| s@) + if in_word {
                seq![text@.subrange(start as int, i as int)]
            } else {
                Seq::empty()
            },
        decreases n - i,
    {
        let c = text.get_char(i);
        let ghost prefix = text@.take(i as int);
        let ghost next = text@.take(i + 1);
        let ghost before = out@.map_values(|s: String| s@);
        assert(next.drop_last() =~= prefix);
        assert(next.last() == c);
        if is_white_space_char(c) {
            if in_word {
                let word = text.substring_char(start, i).to_owned();
                out.push(word);
                assert(out@.map_values(|s: String| s@) =~= before.push(
                    text@.subrange(start as int, i as int),
                ));
            }
            in_word = false;
            assert(words(next) =~= out@.map_values(|s: String| s@));
        } else {
            if in_word {
                assert(next[next.len() - 2] == text@[i - 1]);
                assert(text@.subrange(start as int, i + 1) =~= text@.subrange(
                    start as int,
                    i as int,
                ).push(c));
                assert(words(next) =~= before + seq![text@.subrange(start as int, i + 1)]);
            } else {
                assert(i > 0 ==> next[next.len() - 2] == text@[i - 1]);
                start = i;
                in_word = true;
                assert(text@.subrange(start as int, i + 1) =~= seq![c]);
                assert(words(next) =~= before + seq![text@.subrange(start as int, i + 1)]);
            }
        }
        i = i + 1;
    }
    if in_word {
        let ghost before = out@.map_values(|s: String| s@);
        let word = text.substring_char(start, n).to_owned();
        out.push(word);
        assert(out@.map_values(|s: String| s@) =~= before.push(
            text@.subrange(start as int, n as int),
        ));
    }
    assert(text@.take(n as int) =~= text@);
    out
}

/// Whether `m` holds the same keys as `counts`, each with the same number.
pub open spec fn same_counts(m: Map<Seq<char>, i32>, counts: Map<Seq<char>, int>) -> bool {
    &&& m.dom() == counts.dom()
    &&& forall|w: Seq<char>| #[trigger] m.contains_key(w) ==> m[w] as int == counts[w]
}

/// How often each of `ws` occurs, keyed by its characters.
pub fn count_words(ws: &Vec<String>) -> (r: StringMap<i32>)
    requires
        ws@.len() <= i32::MAX,
    ensures
        r.wf(),
        same_counts(r@, tally(ws@.map_values(|s: String| s@))),
{
    let ghost all = ws@.map_values(|s: String| s@);
    let mut map: StringMap<i32> = StringMap::new();
    let mut k: usize = 0;
    assert(all.take(0) =~= Seq::<Seq<char>>::empty());
    assert(map@.dom() =~= tally(all.take(0)).dom());
    while k < ws.len()
        invariant
            k <= ws@.len(),
            ws@.len() <= i32::MAX,
            all == ws@.map_values(|s: String| s@),
            map.wf(),
            same_counts(map@, tally(all.take(k as int))),
        decreases ws@.len() - k,
    {
        let ghost m = tally(all.take(k as int));
        let ghost next = all.take(k + 1);
        assert(next.drop_last() =~= all.take(k as int));
        assert(next.last() == ws@[k as int]@);
        proof {
            lemma_tally_bounded(all.take(k as int));
        }
        let word = ws[k].clone();
        let seen: i32 = match map.get(&word) {
            Some(c) => *c,
            None => 0,
        };
        map.insert(word, seen + 1);
        assert(map@.dom() =~= tally(next).dom());
        k = k + 1;
    }
    assert(all.take(ws@.len() as int) =~= all);
    map
}

/// How often each word of `text` occurs.
pub fn word_counts(text: &str) -> (r: StringMap<i32>)
    requires
        text@.len() <= i32::MAX,
    ensures
        r.wf(),
        same_counts(r@, tally(words(text@))),
{
    let ws = split_words(text);
    proof {
        lemma_words_len(text@);
    }
    count_words(&ws)
}

/// The words of "hello world wonderful world", counted.
pub fn updating_based_on_old_value() -> (r: StringMap<i32>)
    ensures
        r.wf(),
        same_counts(r@, tally(words("hello world wonderful world"@))),
{
    let text = "hello world wonderful world";
    proof {
        reveal_strlit("hello world wonderful world");
    }
    word_counts(text)
}

/// Scores of ten for Blue and fifty for Yellow.
pub fn create_new_hashmap() -> (r: StringMap<i32>)
    ensures
        r.wf(),
        r@ == map!["Blue"@ => 10i32, "Yellow"@ => 50i32],
{
    let mut scores: StringMap<i32> = StringMap::new();
    scores.insert(String::from_str("Blue"), 10);
    scores.insert(String::from_str("Yellow"), 50);
    scores
}

/// Blue and Yellow zipped with ten and fifty.
pub fn generating_hashmap_using_iterators() -> (r: StringMap<i32>)
    ensures
        r.wf(),
        r@ == map!["Blue"@ => 10i32, "Yellow"@ => 50i32],
{
    let teams = vec![String::from_str("Blue"), String::from_str("Yellow")];
    let initial_scores: Vec<i32> = vec![10, 50];
    let mut scores: StringMap<i32> = StringMap::new();
    let mut k: usize = 0;
    while k < teams.len() && k < initial_scores.len()
        invariant
            k <= teams@.len(),
            k <= initial_scores@.len(),
            teams@.len() == 2,
            teams@[0]@ == "Blue"@,
            teams@[1]@ == "Yellow"@,
            initial_scores@ == seq![10i32, 50i32],
            scores.wf(),
            k == 0 ==> scores@ == Map::<Seq<char>, i32>::empty(),
            k == 1 ==> scores@ == map!["Blue"@ => 10i32],
            k == 2 ==> scores@ == map!["Blue"@ => 10i32, "Yellow"@ => 50i32],
        decreases teams@.len() - k,
    {
        let team = teams[k].clone();
        scores.insert(team, initial_scores[k]);
        k = k + 1;
    }
    scores
}

/// A map that owns both the field name and its value.
pub fn hashmaps_and_ownerships() -> (r: StringMap<String>)
    ensures
        r.wf(),
        r@.dom() == set!["Favorite color"@],
        r@["Favorite color"@]@ == "Blue"@,
{
    let field_name = String::from_str("Favorite color");
    let field_value = String::from_str("Blue");
    let mut map: StringMap<String> = StringMap::new();
    map.insert(field_name, field_value);
    assert(map@.dom() =~= set!["Favorite color"@]);
    map
}

/// Blue's score.
pub fn accessing_values_in_a_hashmap() -> (r: Option<i32>)
    ensures
        r == Some(10i32),
{
    let scores = create_new_hashmap();
    let team_name = String::from_str("Blue");
    proof {
        reveal_strlit("Blue");
        reveal_strlit("Yellow");
        assert("Blue"@ != "Yellow"@) by {
            assert("Blue"@[0] != "Yellow"@[0]);
        }
    }
    match scores.get(&team_name) {
        Some(score) => Some(*score),
        None => None,
    }
}

/// Blue's score set twice: the second value stays.
pub fn overwriting_value() -> (r: StringMap<i32>)
    ensures
        r.wf(),
        r@ == map!["Blue"@ => 25i32],
{
    let mut scores: StringMap<i32> = StringMap::new();
    scores.insert(String::from_str("Blue"), 10);
    scores.insert(String::from_str("Blue"), 25);
    assert(scores@ =~= map!["Blue"@ => 25i32]);
    scores
}

/// Yellow and Blue inserted only where they are missing: Blue keeps its ten.
pub fn inserting_if_key_has_no_value() -> (r: StringMap<i32>)
    ensures
        r.wf(),
        r@ == map!["Blue"@ => 10i32, "Yellow"@ => 50i32],
{
    let mut scores: StringMap<i32> = StringMap::new();
    scores.insert(String::from_str("Blue"), 10);
    proof {
        reveal_strlit("Blue");
        reveal_strlit("Yellow");
        assert("Blue"@ != "Yellow"@) by {
            assert("Blue"@[0] != "Yellow"@[0]);
        }
    }
    scores.or_insert(String::from_str("Yellow"), 50);
    scores.or_insert(String::from_str("Blue"), 50);
    scores
}

} // verus!
