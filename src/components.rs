use vstd::prelude::*;

pub mod builds;
pub mod projects;

verus! {

/// A key press, as far as the screens tell keys apart.
#[derive(Debug, Clone, Copy, PartialEq, Eq, Structural)]
pub enum Key {
    Char(char),
    Ctrl(char),
    Enter,
    Esc,
    Backspace,
    Up,
    Down,
    Other,
}

/// Whether keys drive the screen or edit the filter text.
#[derive(Debug, Clone, Copy, PartialEq, Eq, Structural)]
pub enum InputMode {
    Normal,
    Editing,
}

/// The cursor after moving down in a list of `n` rows: wraps from the last
/// row to the first; nothing to select in an empty list.
pub open spec fn next_index(sel: Option<usize>, n: usize) -> Option<usize> {
    if n == 0 {
        None
    } else {
        match sel {
            Some(i) => if i >= n - 1 {
                Some(0)
            } else {
                Some((i + 1) as usize)
            },
            None => Some(0),
        }
    }
}

/// The cursor after moving up in a list of `n` rows: wraps from the first
/// row to the last; nothing to select in an empty list.
pub open spec fn prev_index(sel: Option<usize>, n: usize) -> Option<usize> {
    if n == 0 {
        None
    } else {
        match sel {
            Some(i) => if i == 0 {
                Some((n - 1) as usize)
            } else {
                Some((i - 1) as usize)
            },
            None => Some(0),
        }
    }
}

/// The first row, if there is one.
pub open spec fn first_index(n: usize) -> Option<usize> {
    if n == 0 {
        None
    } else {
        Some(0)
    }
}

/// The last row, if there is one.
pub open spec fn last_index(n: usize) -> Option<usize> {
    if n == 0 {
        None
    } else {
        Some((n - 1) as usize)
    }
}

/// The keys so far end in two presses of `g`.
pub open spec fn double_g(keys: Seq<Key>) -> bool {
    keys.len() >= 2 && keys[keys.len() - 2] == Key::Char('g')
}

/// The index of the first of `labels` equal to `s`.
pub open spec fn first_match(labels: Seq<Seq<char>>, s: Seq<char>) -> Option<usize>
    decreases labels.len(),
{
    if labels.len() == 0 {
        None
    } else {
        match first_match(labels.drop_last(), s) {
            Some(i) => Some(i),
            None => if labels.last() == s {
                Some((labels.len() - 1) as usize)
            } else {
                None
            },
        }
    }
}

pub fn next_row(sel: Option<usize>, n: usize) -> (r: Option<usize>)
    ensures
        r == next_index(sel, n),
{
    if n == 0 {
        None
    } else {
        match sel {
            Some(i) => if i >= n - 1 {
                Some(0)
            } else {
                Some(i + 1)
            },
            None => Some(0),
        }
    }
}

pub fn prev_row(sel: Option<usize>, n: usize) -> (r: Option<usize>)
    ensures
        r == prev_index(sel, n),
{
    if n == 0 {
        None
    } else {
        match sel {
            Some(i) => if i == 0 {
                Some(n - 1)
            } else {
                Some(i - 1)
            },
            None => Some(0),
        }
    }
}

pub fn first_row(n: usize) -> (r: Option<usize>)
    ensures
        r == first_index(n),
{
    if n == 0 {
        None
    } else {
        Some(0)
    }
}

pub fn last_row(n: usize) -> (r: Option<usize>)
    ensures
        r == last_index(n),
{
    if n == 0 {
        None
    } else {
        Some(n - 1)
    }
}

/// Whether the last two keys of `keys` are both `g`; `keys` already holds the
/// newest press.
pub fn ends_in_double_g(keys: &Vec<Key>) -> (r: bool)
    ensures
        r == double_g(keys@),
{
    keys.len() >= 2 && keys[keys.len() - 2] == Key::Char('g')
}

/// The position of the first of `labels` equal to `s`.
pub fn find_label(labels: &Vec<String>, s: &String) -> (r: Option<usize>)
    ensures
        r == first_match(labels@.map_values(|t: String| t@), s@),
{
    let ghost ls = labels@.map_values(|t: String| t@);
    let mut i: usize = 0;
    while i < labels.len()
        invariant
            0 <= i <= labels.len(),
            ls == labels@.map_values(|t: String| t@),
            first_match(ls.subrange(0, i as int), s@) is None,
        decreases labels.len() - i,
    {
        proof {
            assert(ls.subrange(0, i + 1).drop_last() =~= ls.subrange(0, i as int));
        }
        if labels[i] == *s {
            proof {
                lemma_first_match_prefix(ls, s@, i + 1);
            }
            return Some(i);
        }
        i += 1;
    }
    proof {
        assert(ls.subrange(0, ls.len() as int) =~= ls);
    }
    None
}

proof fn lemma_first_match_prefix(ls: Seq<Seq<char>>, s: Seq<char>, k: int)
    requires
        0 < k <= ls.len(),
        first_match(ls.subrange(0, k), s) is Some,
    ensures
        first_match(ls, s) == first_match(ls.subrange(0, k), s),
    decreases ls.len(),
{
    if k == ls.len() {
        assert(ls.subrange(0, k) =~= ls);
    } else {
        assert(ls.drop_last().subrange(0, k) =~= ls.subrange(0, k));
        lemma_first_match_prefix(ls.drop_last(), s, k);
    }
}

/// The cursor wraps at both ends of a non-empty list, and an empty list never
/// has a selection, whatever moves are made.
pub proof fn lemma_cursor_wraps(n: usize, sel: Option<usize>)
    ensures
        n > 0 ==> next_index(Some((n - 1) as usize), n) == Some(0usize),
        n > 0 ==> prev_index(Some(0), n) == Some((n - 1) as usize),
        n == 0 ==> next_index(sel, n) is None && prev_index(sel, n) is None && first_index(n) is None
            && last_index(n) is None,
{
}

} // verus!
