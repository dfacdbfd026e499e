//! The configuration: a default URL, named URL profiles and the active profile.

use vstd::prelude::*;
use crate::profiles::ProfileMap;
use crate::text::{
    chars_of, chars_range, find_char, first_index_of, has_prefix, lines_chars, lines_of, starts_with_chars,
    string_of_range, trim, trim_bounds, trim_char, trim_char_bounds,
};

verus! {

/// The URL used when nothing else is configured.
pub open spec fn default_url_text() -> Seq<char> {
    "https://ollama.local.skint007.dev"@
}

/// The URL used when nothing else is configured.
pub fn default_url() -> (s: String)
    ensures
        s@ == default_url_text(),
{
    "https://ollama.local.skint007.dev".to_string()
}

pub struct Config {
    pub default_url: String,
    pub active_profile: Option<String>,
    pub urls: ProfileMap,
}

/// A configuration as plain values: default URL, active profile, URL of each profile.
pub type ConfigView = (Seq<char>, Option<Seq<char>>, Map<Seq<char>, Seq<char>>);

pub open spec fn opt_view(o: Option<String>) -> Option<Seq<char>> {
    match o {
        Some(s) => Some(s@),
        None => None,
    }
}

pub open spec fn opt_str_view(o: Option<&str>) -> Option<Seq<char>> {
    match o {
        Some(s) => Some(s@),
        None => None,
    }
}

/// The URL in effect: a command line override first, then the active
/// profile's URL if that profile exists, then the default URL.
pub open spec fn resolved_url(c: ConfigView, cli_override: Option<Seq<char>>) -> Seq<char> {
    match cli_override {
        Some(u) => u,
        None => match c.1 {
            Some(p) => if c.2.contains_key(p) {
                c.2[p]
            } else {
                c.0
            },
            None => c.0,
        },
    }
}

pub open spec fn default_config_view() -> ConfigView {
    (default_url_text(), None, Map::empty())
}

/// The effect of one line of a legacy `KEY="VALUE"` configuration file.
///
/// Blank lines and lines starting with `#` are skipped; otherwise the line is
/// split at its first `=`, the value loses its surrounding double quotes, and
/// `OLLAMA_URL_<name>` adds a profile, `OLLAMA_CURRENT` selects the active
/// profile and `OLLAMA_URL` sets the default URL. Other lines are ignored.
pub open spec fn legacy_step(c: ConfigView, line: Seq<char>) -> ConfigView {
    let t = trim(line);
    if t.len() == 0 || t[0] == '#' {
        c
    } else if exists|i: int| first_index_of(t, '=', i) {
        let i = choose|i: int| first_index_of(t, '=', i);
        let key = t.subrange(0, i);
        let val = trim_char(t.subrange(i + 1, t.len() as int), '"');
        if has_prefix(key, "OLLAMA_URL_"@) {
            (c.0, c.1, c.2.insert(key.subrange("OLLAMA_URL_"@.len() as int, key.len() as int), val))
        } else if key == "OLLAMA_CURRENT"@ {
            (c.0, Some(val), c.2)
        } else if key == "OLLAMA_URL"@ {
            (val, c.1, c.2)
        } else {
            c
        }
    } else {
        c
    }
}

/// The configuration read from the lines of a legacy configuration file.
pub open spec fn legacy_config(lines: Seq<Seq<char>>) -> ConfigView
    decreases lines.len(),
{
    if lines.len() == 0 {
        default_config_view()
    } else {
        legacy_step(legacy_config(lines.drop_last()), lines.last())
    }
}

proof fn lemma_first_index_unique(s: Seq<char>, c: char, i: int, j: int)
    requires
        first_index_of(s, c, i),
        first_index_of(s, c, j),
    ensures
        i == j,
{
}

impl Config {
    pub open spec fn view(&self) -> ConfigView {
        (self.default_url@, opt_view(self.active_profile), self.urls.as_map())
    }

    /// Resolve the effective URL: command line override > active profile > default.
    pub fn resolve_url(&self, cli_override: Option<&str>) -> (s: String)
        ensures
            s@ == resolved_url(self@, opt_str_view(cli_override)),
    {
        if let Some(url) = cli_override {
            return url.to_owned();
        }
        if let Some(profile) = &self.active_profile {
            if let Some(url) = self.urls.get(profile.as_str()) {
                return url.clone();
            }
        }
        self.default_url.clone()
    }

    /// Applies one line of a legacy configuration file.
    fn apply_legacy_line(&mut self, line: &[char])
        ensures
            final(self)@ == legacy_step(old(self)@, line@),
    {
        let (lo, hi) = trim_bounds(line);
        let ghost t = trim(line@);
        if lo == hi || line[lo] == '#' {
            return;
        }
        assert(t[0] == line@[lo as int]);
        let trimmed: Vec<char> = chars_range(line, lo, hi);
        assert(trimmed@ == t);
        let eq = find_char(trimmed.as_slice(), '=');
        match eq {
            None => {
                assert(!exists|i: int| first_index_of(t, '=', i));
            },
            Some(i) => {
                proof {
                    let j = choose|j: int| first_index_of(t, '=', j);
                    lemma_first_index_unique(t, '=', i as int, j);
                }
                let key: Vec<char> = chars_range(trimmed.as_slice(), 0, i);
                assert(key@ == t.subrange(0, i as int));
                let (vlo, vhi) = trim_char_bounds(trimmed.as_slice(), i + 1, trimmed.len(), '"');
                let val = string_of_range(trimmed.as_slice(), vlo, vhi);
                let prefix = chars_of("OLLAMA_URL_");
                if starts_with_chars(key.as_slice(), prefix.as_slice()) {
                    let name = string_of_range(key.as_slice(), prefix.len(), key.len());
                    self.urls.insert(name, val);
                } else if crate::text::str_eq(
                    crate::text::string_of(key.as_slice()).as_str(),
                    "OLLAMA_CURRENT",
                ) {
                    self.active_profile = Some(val);
                } else if crate::text::str_eq(
                    crate::text::string_of(key.as_slice()).as_str(),
                    "OLLAMA_URL",
                ) {
                    self.default_url = val;
                }
            },
        }
    }

    /// Parses the legacy bash configuration format (`KEY="VALUE"` lines).
    pub fn parse_legacy(contents: &str) -> (c: Config)
        ensures
            c@ == legacy_config(lines_of(contents@)),
    {
        let chars = chars_of(contents);
        let ls = lines_chars(chars.as_slice());
        let ghost all = ls@.map_values(|l: Vec<char>| l@);
        let mut config = Config::default();
        let mut i: usize = 0;
        while i < ls.len()
            invariant
                i <= ls@.len(),
                all == ls@.map_values(|l: Vec<char>| l@),
                config@ == legacy_config(all.subrange(0, i as int)),
            decreases ls@.len() - i,
        {
            config.apply_legacy_line(ls[i].as_slice());
            proof {
                let pre = all.subrange(0, i + 1);
                assert(pre.drop_last() == all.subrange(0, i as int));
                assert(pre.last() == ls@[i as int]@);
            }
            i += 1;
        }
        assert(all.subrange(0, ls@.len() as int) == all);
        config
    }
}

impl Default for Config {
    fn default() -> (c: Config)
        ensures
            c@ == default_config_view(),
    {
        let urls = ProfileMap::new();
        assert(urls.as_map() =~= Map::empty());
        Config { default_url: default_url(), active_profile: None, urls }
    }
}

/// The base URL of a server as requests are built from it: the URL without
/// its trailing slashes.
pub fn normalize_base_url(url: &str) -> (r: String)
    ensures
        r@ == crate::text::trim_end_char(url@, '/'),
{
    let v = chars_of(url);
    let mut hi = v.len();
    assert(v@.subrange(0, v@.len() as int) == v@);
    while hi > 0 && v[hi - 1] == '/'
        invariant
            hi <= v@.len(),
            crate::text::trim_end_char(v@, '/') == crate::text::trim_end_char(
                v@.subrange(0, hi as int),
                '/',
            ),
        decreases hi,
    {
        proof {
            let t = v@.subrange(0, hi as int);
            assert(t.drop_last() == v@.subrange(0, hi - 1));
        }
        hi -= 1;
    }
    proof {
        assert(v@.subrange(0, v@.len() as int) == v@);
        let t = v@.subrange(0, hi as int);
        if hi > 0 {
            assert(t.last() == v@[hi - 1]);
        }
    }
    string_of_range(v.as_slice(), 0, hi)
}

} // verus!
