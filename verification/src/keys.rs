//! Finding a Gemini API key in the environment or in a `.env` file.
use vstd::prelude::*;
use crate::text::{
    CharClass, is_blank, is_blank_spec, starts_with, starts_with_spec, trim, trim_class,
    trim_spec, trimmed,
};

verus! {

/// The number of characters before the first line feed, or all of them.
pub open spec fn line_end(s: Seq<char>) -> int
    decreases s.len(),
{
    if s.len() == 0 || s[0] == '\n' {
        0
    } else {
        1 + line_end(s.drop_first())
    }
}

pub proof fn lemma_line_end_bounds(s: Seq<char>)
    ensures
        0 <= line_end(s) <= s.len(),
    decreases s.len(),
{
    if s.len() > 0 && s[0] != '\n' {
        lemma_line_end_bounds(s.drop_first());
    }
}

proof fn lemma_line_end_at(s: Seq<char>, i: int)
    requires
        0 <= i <= s.len(),
        forall|j: int| 0 <= j < i ==> #[trigger] s[j] != '\n',
        i == s.len() || s[i] == '\n',
    ensures
        line_end(s) == i,
    decreases i,
{
    if i > 0 {
        let t = s.drop_first();
        assert forall|j: int| 0 <= j < i - 1 implies #[trigger] t[j] != '\n' by {
            assert(t[j] == s[j + 1]);
        }
        lemma_line_end_at(t, i - 1);
    }
}

/// The key a `.env` line sets: after trimming the line, what follows
/// `GEMINI_API_KEY=`, without quotes at either end and then trimmed, when
/// that is not empty.
pub open spec fn line_key(line: Seq<char>) -> Option<Seq<char>> {
    let t = trimmed(line);
    let prefix = "GEMINI_API_KEY="@;
    if starts_with_spec(t, prefix) {
        let v = trimmed(trim_spec(t.skip(prefix.len() as int), CharClass::Quote));
        if v.len() > 0 {
            Some(v)
        } else {
            None
        }
    } else {
        None
    }
}

/// The key set by the first line of a `.env` file that sets one.
pub open spec fn env_file_key(s: Seq<char>) -> Option<Seq<char>>
    decreases s.len(),
{
    let n = line_end(s);
    proof {
        lemma_line_end_bounds(s);
    }
    match line_key(s.take(n)) {
        Some(k) => Some(k),
        None => if n < s.len() {
            env_file_key(s.skip(n + 1))
        } else {
            None
        },
    }
}

/// The first `.env` file, among those that could be read, that sets a key.
pub open spec fn files_key(files: Seq<Option<String>>) -> Option<Seq<char>>
    decreases files.len(),
{
    if files.len() == 0 {
        None
    } else {
        match files[0] {
            Some(text) => match env_file_key(text@) {
                Some(k) => Some(k),
                None => files_key(files.drop_first()),
            },
            None => files_key(files.drop_first()),
        }
    }
}

/// The key of the `GEMINI_API_KEY` variable, as it is, when it is not
/// blank; else the key the `.env` files set.
pub open spec fn api_key_spec(env_value: Option<String>, files: Seq<Option<String>>) -> Option<Seq<char>> {
    match env_value {
        Some(v) => if !is_blank_spec(v@) {
            Some(v@)
        } else {
            files_key(files)
        },
        None => files_key(files),
    }
}

/// The key one `.env` line sets, if any.
pub fn key_of_line(line: &str) -> (r: Option<String>)
    ensures
        match r {
            Some(k) => line_key(line@) == Some(k@),
            None => line_key(line@) is None,
        },
{
    let t = trim(line);
    let prefix = "GEMINI_API_KEY=";
    if starts_with(t, prefix) {
        let rest = t.substring_char(prefix.unicode_len(), t.unicode_len());
        let v = trim(trim_class(rest, CharClass::Quote));
        if v.unicode_len() > 0 {
            Some(v.to_owned())
        } else {
            None
        }
    } else {
        None
    }
}

/// The key set by the first line of a `.env` file that sets one.
pub fn api_key_from_env_file(contents: &str) -> (r: Option<String>)
    ensures
        match r {
            Some(k) => env_file_key(contents@) == Some(k@),
            None => env_file_key(contents@) is None,
        },
{
    let n = contents.unicode_len();
    let ghost s = contents@;
    let mut start: usize = 0;
    assert(s.skip(0) =~= s);
    while start <= n
        invariant
            n == s.len(),
            s == contents@,
            0 <= start <= n + 1,
            start <= n ==> env_file_key(s) == env_file_key(s.skip(start as int)),
            start > n ==> env_file_key(s) is None,
        decreases n + 1 - start,
    {
        let mut end = start;
        while end < n && contents.get_char(end) != '\n'
            invariant
                n == s.len(),
                s == contents@,
                start <= end <= n,
                forall|j: int| start <= j < end ==> #[trigger] s[j] != '\n',
            decreases n - end,
        {
            end = end + 1;
        }
        let ghost rest = s.skip(start as int);
        proof {
            assert forall|j: int| 0 <= j < end - start implies #[trigger] rest[j] != '\n' by {
                assert(rest[j] == s[j + start]);
            }
            if end < n {
                assert(rest[end - start] == s[end as int]);
            }
            lemma_line_end_at(rest, end - start);
            assert(rest.take(end - start) =~= s.subrange(start as int, end as int));
        }
        let line = contents.substring_char(start, end);
        match key_of_line(line) {
            Some(k) => {
                return Some(k);
            },
            None => {},
        }
        if end == n {
            return None;
        }
        assert(rest.skip(end - start + 1) =~= s.skip(end + 1));
        start = end + 1;
    }
    None
}

/// The Gemini API key to start with: the `GEMINI_API_KEY` variable when it
/// is set and not blank, else the key set by the first readable `.env` file
/// that sets one.
pub fn api_key_from_sources(env_value: Option<String>, env_files: &Vec<Option<String>>) -> (r: Option<String>)
    ensures
        match r {
            Some(k) => api_key_spec(env_value, env_files@) == Some(k@),
            None => api_key_spec(env_value, env_files@) is None,
        },
{
    match &env_value {
        Some(v) => {
            if !is_blank(v.as_str()) {
                return Some(v.clone());
            }
        },
        None => {},
    }
    let ghost fs = env_files@;
    let mut i: usize = 0;
    assert(fs.skip(0) =~= fs);
    while i < env_files.len()
        invariant
            fs == env_files@,
            api_key_spec(env_value, fs) == files_key(fs),
            0 <= i <= fs.len(),
            files_key(fs) == files_key(fs.skip(i as int)),
        decreases fs.len() - i,
    {
        let ghost rest = fs.skip(i as int);
        assert(rest[0] == fs[i as int]);
        assert(rest.drop_first() =~= fs.skip(i + 1));
        match &env_files[i] {
            Some(text) => match api_key_from_env_file(text.as_str()) {
                Some(k) => {
                    return Some(k);
                },
                None => {},
            },
            None => {},
        }
        i = i + 1;
    }
    assert(fs.skip(fs.len() as int).len() == 0);
    None
}

} // verus!
