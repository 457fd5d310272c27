use vstd::prelude::*;

use crate::teamcity::texts;
use crate::text::{joined, push_char};

verus! {

/// What `char::is_whitespace` says of a character (the Unicode White_Space
/// property).
pub uninterp spec fn whitespace(c: char) -> bool;

/// Relies on char::is_whitespace.
#[verifier::external_body]
fn is_whitespace(c: char) -> (r: bool)
    ensures
        r == whitespace(c),
{
    c.is_whitespace()
}

/// The connection settings: server, access token and the projects to show.
pub struct Cli {
    pub teamcity_url: Option<String>,
    pub token: Option<String>,
    pub projects: Option<Vec<String>>,
}

/// The pieces of `s` between commas (one more than there are commas).
pub open spec fn pieces(s: Seq<char>) -> Seq<Seq<char>>
    decreases s.len(),
{
    if s.len() == 0 {
        seq![Seq::empty()]
    } else {
        let p = pieces(s.drop_last());
        if s.last() == ',' {
            p.push(Seq::empty())
        } else {
            p.update(p.len() - 1, p.last().push(s.last()))
        }
    }
}

pub open spec fn trim_start(s: Seq<char>) -> Seq<char>
    decreases s.len(),
{
    if s.len() > 0 && whitespace(s[0]) {
        trim_start(s.subrange(1, s.len() as int))
    } else {
        s
    }
}

pub open spec fn trim_end(s: Seq<char>) -> Seq<char>
    decreases s.len(),
{
    if s.len() > 0 && whitespace(s.last()) {
        trim_end(s.drop_last())
    } else {
        s
    }
}

/// `s` without leading and trailing whitespace.
pub open spec fn trimmed(s: Seq<char>) -> Seq<char> {
    trim_start(trim_end(s))
}

/// The trimmed pieces that are not empty, in order.
pub open spec fn kept(ps: Seq<Seq<char>>) -> Seq<Seq<char>>
    decreases ps.len(),
{
    if ps.len() == 0 {
        Seq::empty()
    } else {
        kept(ps.drop_last()) + if trimmed(ps.last()).len() > 0 {
            seq![trimmed(ps.last())]
        } else {
            Seq::empty()
        }
    }
}

/// The project ids typed as a comma-separated list.
pub open spec fn project_list(s: Seq<char>) -> Seq<Seq<char>> {
    kept(pieces(s))
}

/// The ids joined by commas.
pub open spec fn comma_joined(ps: Seq<Seq<char>>) -> Seq<char>
    decreases ps.len(),
{
    if ps.len() == 0 {
        Seq::empty()
    } else if ps.len() == 1 {
        ps[0]
    } else {
        comma_joined(ps.drop_last()) + ","@ + ps.last()
    }
}

proof fn lemma_trim_end_step(s: Seq<char>, e: int)
    requires
        0 < e <= s.len(),
        whitespace(s[e - 1]),
    ensures
        trim_end(s.subrange(0, e)) == trim_end(s.subrange(0, e - 1)),
{
    assert(s.subrange(0, e).drop_last() =~= s.subrange(0, e - 1));
}

proof fn lemma_trim_start_step(s: Seq<char>, b: int, e: int)
    requires
        0 <= b < e <= s.len(),
        whitespace(s[b]),
    ensures
        trim_start(s.subrange(b, e)) == trim_start(s.subrange(b + 1, e)),
{
    assert(s.subrange(b, e).subrange(1, e - b) =~= s.subrange(b + 1, e));
}

/// `t` without leading and trailing whitespace.
pub fn trim_text(t: &str) -> (r: String)
    ensures
        r@ == trimmed(t@),
{
    let n = t.unicode_len();
    let mut e: usize = n;
    proof {
        assert(t@.subrange(0, n as int) =~= t@);
    }
    while e > 0 && is_whitespace(t.get_char(e - 1))
        invariant
            0 <= e <= n,
            n == t@.len(),
            trim_end(t@) == trim_end(t@.subrange(0, e as int)),
        decreases e,
    {
        proof {
            lemma_trim_end_step(t@, e as int);
        }
        e -= 1;
    }
    let ghost front = t@.subrange(0, e as int);
    assert(trim_end(front) == front);
    let mut b: usize = 0;
    proof {
        assert(t@.subrange(0, e as int) =~= t@.subrange(b as int, e as int));
    }
    while b < e && is_whitespace(t.get_char(b))
        invariant
            0 <= b <= e <= n,
            n == t@.len(),
            trim_start(front) == trim_start(t@.subrange(b as int, e as int)),
        decreases e - b,
    {
        proof {
            lemma_trim_start_step(t@, b as int, e as int);
        }
        b += 1;
    }
    assert(trim_start(t@.subrange(b as int, e as int)) == t@.subrange(b as int, e as int));
    String::from_str(t.substring_char(b, e))
}

/// The project ids in a comma-separated list, each trimmed, the empty ones
/// left out; `None` when no id is left.
pub fn projects_from_input(input: &str) -> (r: Option<Vec<String>>)
    ensures
        match r {
            Some(v) => texts(v@) == project_list(input@) && v@.len() > 0,
            None => project_list(input@).len() == 0,
        },
{
    let n = input.unicode_len();
    let ghost s = input@;
    let ghost mut done: Seq<Seq<char>> = Seq::empty();
    let mut out: Vec<String> = Vec::new();
    let mut cur = String::new();
    let mut i: usize = 0;
    proof {
        assert(s.subrange(0, 0) =~= Seq::<char>::empty());
        assert(pieces(s.subrange(0, 0)) =~= done.push(cur@));
    }
    while i < n
        invariant
            0 <= i <= n,
            n == s.len(),
            s == input@,
            pieces(s.subrange(0, i as int)) == done.push(cur@),
            texts(out@) == kept(done),
        decreases n - i,
    {
        let c = input.get_char(i);
        proof {
            assert(s.subrange(0, i + 1).drop_last() =~= s.subrange(0, i as int));
            assert(s.subrange(0, i + 1).last() == c);
        }
        if c == ',' {
            let piece = trim_text(cur.as_str());
            let ghost before = out@;
            proof {
                assert(done.push(cur@).drop_last() =~= done);
            }
            if piece.as_str().is_empty() {
                proof {
                    assert(texts(out@) =~= kept(done.push(cur@)));
                }
            } else {
                out.push(piece);
                proof {
                    assert(texts(out@) =~= texts(before).push(piece@));
                    assert(texts(out@) =~= kept(done.push(cur@)));
                }
            }
            proof {
                done = done.push(cur@);
            }
            cur = String::new();
            proof {
                assert(pieces(s.subrange(0, i + 1)) =~= done.push(cur@));
            }
        } else {
            let ghost old_cur = cur@;
            push_char(&mut cur, c);
            proof {
                assert(pieces(s.subrange(0, i + 1)) =~= done.push(old_cur).update(
                    done.len() as int,
                    old_cur.push(c),
                ));
                assert(pieces(s.subrange(0, i + 1)) =~= done.push(cur@));
            }
        }
        i += 1;
    }
    proof {
        assert(s.subrange(0, n as int) =~= s);
        assert(done.push(cur@).drop_last() =~= done);
    }
    let last = trim_text(cur.as_str());
    let ghost before = out@;
    if !last.as_str().is_empty() {
        out.push(last);
        proof {
            assert(texts(out@) =~= texts(before).push(last@));
        }
    }
    proof {
        assert(texts(out@) =~= project_list(input@));
    }
    if out.len() == 0 {
        None
    } else {
        Some(out)
    }
}

/// The list as it is offered for editing: the ids joined by commas, or
/// nothing when there are none.
pub fn projects_prompt_default(projects: &Option<Vec<String>>) -> (r: Option<String>)
    ensures
        match projects {
            Some(v) => if v@.len() > 0 {
                r is Some && r.unwrap()@ == comma_joined(texts(v@))
            } else {
                r is None
            },
            None => r is None,
        },
{
    match projects {
        Some(v) => {
            if v.len() == 0 {
                return None;
            }
            let mut r = v[0].clone();
            let mut i: usize = 1;
            proof {
                assert(texts(v@).subrange(0, 1) =~= seq![v@[0]@]);
            }
            while i < v.len()
                invariant
                    1 <= i <= v.len(),
                    r@ == comma_joined(texts(v@).subrange(0, i as int)),
                decreases v.len() - i,
            {
                let t = joined(r.as_str(), ",");
                r = joined(t.as_str(), v[i].as_str());
                proof {
                    assert(texts(v@).subrange(0, i + 1).drop_last() =~= texts(v@).subrange(
                        0,
                        i as int,
                    ));
                }
                i += 1;
            }
            proof {
                assert(texts(v@).subrange(0, v@.len() as int) =~= texts(v@));
            }
            Some(r)
        },
        None => None,
    }
}

impl Cli {
    /// The server or the token is missing, so the config file is needed.
    pub fn needs_config(&self) -> (r: bool)
        ensures
            r == (self.teamcity_url is None || self.token is None),
    {
        self.teamcity_url.is_none() || self.token.is_none()
    }

    /// These settings, with what they leave open taken from `loaded`.
    pub fn fill_from(self, loaded: Cli) -> (r: Cli)
        ensures
            r.teamcity_url == if self.teamcity_url is Some {
                self.teamcity_url
            } else {
                loaded.teamcity_url
            },
            r.token == if self.token is Some {
                self.token
            } else {
                loaded.token
            },
            r.projects == if self.projects is Some {
                self.projects
            } else {
                loaded.projects
            },
    {
        Cli {
            teamcity_url: match self.teamcity_url {
                Some(u) => Some(u),
                None => loaded.teamcity_url,
            },
            token: match self.token {
                Some(t) => Some(t),
                None => loaded.token,
            },
            projects: match self.projects {
                Some(p) => Some(p),
                None => loaded.projects,
            },
        }
    }
}

} // verus!
