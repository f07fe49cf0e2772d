//! Registries: shared settings in a local directory or a Git repository.
//! Which registry a run uses (command line over environment over settings),
//! where its copy is cached, and the decisions of loading it.
use vstd::prelude::*;
use std::collections::hash_map::DefaultHasher;
use std::hash::Hasher;
use vstd::std_specs::hash::DefaultHasherAdditionalSpecFns;
use vstd::string::StringSliceAdditionalSpecFns;
use vstd::utf8::encode_utf8;

use crate::check::opt_view;
use crate::config::env::EnvRegistryParams;
use crate::config::types::{BaseConfig, NamedRegistryConfig};
use crate::paths::{join, join_spec};
use crate::check::texts;
use crate::config::rules::RulesConfig;
use crate::error::{context_view, Error, ErrorCode};
use crate::paths::REGISTRY_BASE_CONFIG_FILE_NAME;
use crate::repo::commands::{command_text, command_text_spec};
use crate::runtime::{resolve_available_config, AvailableConfig};
use crate::state::AppState;
use crate::text::{
    chars_starts_with, chars_to_string, owned, seq_starts_with, str_eq, str_to_chars, trim,
    trim_bounds,
};

verus! {

/// A registry fully resolved: where, which ref, which section.
#[derive(Debug, Clone)]
pub struct RegistrySpec {
    pub url: String,
    pub ref_name: String,
    pub section: Option<String>,
}

// ---------------------------------------------------------------------------
// Selection
// ---------------------------------------------------------------------------
/// The named registries of a settings file (none when unset).
pub open spec fn reg_table(c: BaseConfig) -> Seq<(String, NamedRegistryConfig)> {
    match c.registries {
        Some(m) => m@,
        None => Seq::empty(),
    }
}

/// Index of the first registry named `name`, or -1.
pub open spec fn named_index(t: Seq<(String, NamedRegistryConfig)>, name: Seq<char>) -> int
    decreases t.len(),
{
    if t.len() == 0 {
        -1
    } else if t[0].0@ == name {
        0
    } else {
        let r = named_index(t.drop_first(), name);
        if r < 0 {
            -1
        } else {
            r + 1
        }
    }
}

/// Index of the first registry named `name` or at `url`, or -1.
pub open spec fn match_index(t: Seq<(String, NamedRegistryConfig)>, name: Seq<char>, url: Seq<
    char,
>) -> int
    decreases t.len(),
{
    if t.len() == 0 {
        -1
    } else if t[0].0@ == name || opt_view(t[0].1.url) == Some(url) {
        0
    } else {
        let r = match_index(t.drop_first(), name, url);
        if r < 0 {
            -1
        } else {
            r + 1
        }
    }
}

/// The URL of the registry the settings use.
pub open spec fn url_from_config_spec(c: Option<BaseConfig>) -> Option<Seq<char>> {
    match c {
        Some(c) => match c.spec_registry_use() {
            Some(name) => {
                let i = named_index(reg_table(c), name);
                if i >= 0 {
                    opt_view(reg_table(c)[i].1.url)
                } else {
                    None
                }
            },
            None => None,
        },
        None => None,
    }
}

/// The ref of the first registry named as the used one or at `url`.
pub open spec fn ref_from_config_spec(c: Option<BaseConfig>, url: Seq<char>) -> Option<Seq<char>> {
    match c {
        Some(c) => match c.spec_registry_use() {
            Some(name) => {
                let i = match_index(reg_table(c), name, url);
                if i >= 0 {
                    opt_view(reg_table(c)[i].1.ref_name)
                } else {
                    None
                }
            },
            None => None,
        },
        None => None,
    }
}

/// The section of that registry: its section, else the first of its
/// sections.
pub open spec fn section_from_named_spec(c: Option<BaseConfig>, url: Seq<char>) -> Option<
    Seq<char>,
> {
    match c {
        Some(c) => match c.spec_registry_use() {
            Some(name) => {
                let i = match_index(reg_table(c), name, url);
                if i >= 0 {
                    let r = reg_table(c)[i].1;
                    match r.section {
                        Some(s) => Some(s@),
                        None => match r.sections {
                            Some(l) => if l@.len() > 0 {
                                Some(l@[0]@)
                            } else {
                                None
                            },
                            None => None,
                        },
                    }
                } else {
                    None
                }
            },
            None => None,
        },
        None => None,
    }
}

/// The first of three optional texts that is set.
pub open spec fn first_of(a: Option<Seq<char>>, b: Option<Seq<char>>, c: Option<Seq<char>>) -> Option<
    Seq<char>,
> {
    match a {
        Some(x) => Some(x),
        None => match b {
            Some(x) => Some(x),
            None => c,
        },
    }
}

/// A text argument as an optional text.
pub open spec fn arg_view(a: Option<&str>) -> Option<Seq<char>> {
    match a {
        Some(x) => Some(x@),
        None => None,
    }
}

/// A found index lies inside the table.
proof fn lemma_named_index_bound(t: Seq<(String, NamedRegistryConfig)>, name: Seq<char>)
    ensures
        named_index(t, name) < t.len(),
    decreases t.len(),
{
    if t.len() > 0 {
        lemma_named_index_bound(t.drop_first(), name);
    }
}

/// A found index lies inside the table.
proof fn lemma_match_index_bound(
    t: Seq<(String, NamedRegistryConfig)>,
    name: Seq<char>,
    url: Seq<char>,
)
    ensures
        match_index(t, name, url) < t.len(),
    decreases t.len(),
{
    if t.len() > 0 {
        lemma_match_index_bound(t.drop_first(), name, url);
    }
}

/// Index of the first registry named `name`.
fn find_named(t: &Vec<(String, NamedRegistryConfig)>, name: &str) -> (r: Option<usize>)
    ensures
        match r {
            Some(i) => named_index(t@, name@) == i && i < t@.len(),
            None => named_index(t@, name@) < 0,
        },
{
    proof {
        assert(t@.subrange(0, t@.len() as int) =~= t@);
        lemma_named_index_bound(t@, name@);
    }
    let mut i: usize = 0;
    while i < t.len()
        invariant
            0 <= i <= t@.len(),
            named_index(t@, name@) == (if named_index(t@.subrange(i as int, t@.len() as int), name@)
                >= 0 {
                named_index(t@.subrange(i as int, t@.len() as int), name@) + i
            } else {
                -1
            }),
        decreases t@.len() - i,
    {
        let ghost rest = t@.subrange(i as int, t@.len() as int);
        assert(rest.drop_first() =~= t@.subrange(i + 1, t@.len() as int));
        assert(rest[0] == t@[i as int]);
        if str_eq(t[i].0.as_str(), name) {
            return Some(i);
        }
        i = i + 1;
    }
    None
}

/// Index of the first registry named `name` or at `url`.
fn find_match(t: &Vec<(String, NamedRegistryConfig)>, name: &str, url: &str) -> (r: Option<usize>)
    ensures
        match r {
            Some(i) => match_index(t@, name@, url@) == i && i < t@.len(),
            None => match_index(t@, name@, url@) < 0,
        },
{
    proof {
        assert(t@.subrange(0, t@.len() as int) =~= t@);
        lemma_match_index_bound(t@, name@, url@);
    }
    let mut i: usize = 0;
    while i < t.len()
        invariant
            0 <= i <= t@.len(),
            match_index(t@, name@, url@) == (if match_index(
                t@.subrange(i as int, t@.len() as int),
                name@,
                url@,
            ) >= 0 {
                match_index(t@.subrange(i as int, t@.len() as int), name@, url@) + i
            } else {
                -1
            }),
        decreases t@.len() - i,
    {
        let ghost rest = t@.subrange(i as int, t@.len() as int);
        assert(rest.drop_first() =~= t@.subrange(i + 1, t@.len() as int));
        assert(rest[0] == t@[i as int]);
        let url_matches = match &t[i].1.url {
            Some(u) => str_eq(u.as_str(), url),
            None => false,
        };
        if str_eq(t[i].0.as_str(), name) || url_matches {
            return Some(i);
        }
        i = i + 1;
    }
    None
}

/// A copy of an optional text.
fn copy_opt(o: &Option<String>) -> (r: Option<String>)
    ensures
        r == *o,
{
    match o {
        Some(s) => Some(s.clone()),
        None => None,
    }
}

/// The URL of the registry the settings use, if named there.
fn resolve_url_from_config(config: Option<&BaseConfig>) -> (r: Option<String>)
    ensures
        opt_view(r) == url_from_config_spec(
            match config {
                Some(c) => Some(*c),
                None => None,
            },
        ),
{
    let config = match config {
        Some(c) => c,
        None => return None,
    };
    let use_name = match config.registry_use() {
        Some(n) => n,
        None => return None,
    };
    match &config.registries {
        Some(m) => match find_named(m, use_name.as_str()) {
            Some(i) => copy_opt(&m[i].1.url),
            None => None,
        },
        None => {
            assert(named_index(Seq::<(String, NamedRegistryConfig)>::empty(), use_name@) < 0);
            None
        },
    }
}

/// The ref of the registry the settings use, found by name or URL.
fn resolve_ref_from_config(config: Option<&BaseConfig>, url: &str) -> (r: Option<String>)
    ensures
        opt_view(r) == ref_from_config_spec(
            match config {
                Some(c) => Some(*c),
                None => None,
            },
            url@,
        ),
{
    let config = match config {
        Some(c) => c,
        None => return None,
    };
    let use_name = match config.registry_use() {
        Some(n) => n,
        None => return None,
    };
    match &config.registries {
        Some(m) => match find_match(m, use_name.as_str(), url) {
            Some(i) => copy_opt(&m[i].1.ref_name),
            None => None,
        },
        None => {
            assert(match_index(Seq::<(String, NamedRegistryConfig)>::empty(), use_name@, url@) < 0);
            None
        },
    }
}

/// The section set at the top of the registry settings.
fn resolve_section_from_top_level(config: Option<&BaseConfig>) -> (r: Option<String>)
    ensures
        opt_view(r) == match config {
            Some(c) => match c.registry {
                Some(g) => opt_view(g.section),
                None => None,
            },
            None => None,
        },
{
    match config {
        Some(c) => match &c.registry {
            Some(g) => copy_opt(&g.section),
            None => None,
        },
        None => None,
    }
}

/// The section of the registry the settings use.
pub fn resolve_section_from_named_registry(config: Option<&BaseConfig>, url: &str) -> (r: Option<
    String,
>)
    ensures
        opt_view(r) == section_from_named_spec(
            match config {
                Some(c) => Some(*c),
                None => None,
            },
            url@,
        ),
{
    let config = match config {
        Some(c) => c,
        None => return None,
    };
    let use_name = match config.registry_use() {
        Some(n) => n,
        None => return None,
    };
    match &config.registries {
        Some(m) => match find_match(m, use_name.as_str(), url) {
            Some(i) => {
                let r = &m[i].1;
                match &r.section {
                    Some(s) => Some(s.clone()),
                    None => match &r.sections {
                        Some(l) => if l.len() > 0 {
                            Some(l[0].clone())
                        } else {
                            None
                        },
                        None => None,
                    },
                }
            },
            None => None,
        },
        None => {
            assert(match_index(Seq::<(String, NamedRegistryConfig)>::empty(), use_name@, url@) < 0);
            None
        },
    }
}

/// The first of an argument, an environment value and a settings value.
fn pick(a: Option<&str>, b: &Option<String>, c: Option<String>) -> (r: Option<String>)
    ensures
        opt_view(r) == first_of(arg_view(a), opt_view(*b), opt_view(c)),
{
    match a {
        Some(x) => Some(owned(x)),
        None => match b {
            Some(x) => Some(x.clone()),
            None => c,
        },
    }
}

/// A registry as texts: its URL, ref and section.
pub open spec fn spec_view(s: RegistrySpec) -> (Seq<char>, Seq<char>, Option<Seq<char>>) {
    (s.url@, s.ref_name@, opt_view(s.section))
}

/// The section set at the top of the registry settings.
pub open spec fn top_section_spec(c: Option<BaseConfig>) -> Option<Seq<char>> {
    match c {
        Some(c) => match c.registry {
            Some(g) => opt_view(g.section),
            None => None,
        },
        None => None,
    }
}

/// The registry a run uses: the URL from the command line, else the
/// environment, else the settings (none without one); the ref likewise,
/// else the one the settings give for that registry, else `HEAD`; the
/// section likewise, else the top-level one, else the one of the registry.
pub open spec fn registry_spec_of(
    cli_url: Option<Seq<char>>,
    cli_ref: Option<Seq<char>>,
    cli_section: Option<Seq<char>>,
    c: Option<BaseConfig>,
    env: EnvRegistryParams,
) -> Option<(Seq<char>, Seq<char>, Option<Seq<char>>)> {
    match first_of(cli_url, opt_view(env.url), url_from_config_spec(c)) {
        None => None,
        Some(url) => Some(
            (
                url,
                match first_of(cli_ref, opt_view(env.ref_name), ref_from_config_spec(c, url)) {
                    Some(x) => x,
                    None => "HEAD"@,
                },
                first_of(
                    cli_section,
                    opt_view(env.section),
                    first_of(top_section_spec(c), section_from_named_spec(c, url), None),
                ),
            ),
        ),
    }
}

/// The first registry named `name`, where no earlier one has that name.
proof fn lemma_named_index_at(t: Seq<(String, NamedRegistryConfig)>, name: Seq<char>, i: int)
    requires
        0 <= i < t.len(),
        t[i].0@ == name,
        forall|j: int| 0 <= j < i ==> (#[trigger] t[j]).0@ != name,
    ensures
        named_index(t, name) == i,
    decreases i,
{
    if i > 0 {
        let d = t.drop_first();
        assert forall|j: int| 0 <= j < i - 1 implies (#[trigger] d[j]).0@ != name by {
            assert(d[j] == t[j + 1]);
        }
        assert(t[0].0@ != name);
        lemma_named_index_at(d, name, i - 1);
    }
}

/// The first registry named `name` or at `url`, where no earlier one is.
proof fn lemma_match_index_at(t: Seq<(String, NamedRegistryConfig)>, name: Seq<char>, url: Seq<char>, i: int)
    requires
        0 <= i < t.len(),
        t[i].0@ == name,
        forall|j: int|
            0 <= j < i ==> (#[trigger] t[j]).0@ != name && opt_view(t[j].1.url) != Some(url),
    ensures
        match_index(t, name, url) == i,
    decreases i,
{
    if i > 0 {
        let d = t.drop_first();
        assert forall|j: int| 0 <= j < i - 1 implies (#[trigger] d[j]).0@ != name && opt_view(
            d[j].1.url,
        ) != Some(url) by {
            assert(d[j] == t[j + 1]);
        }
        assert(t[0].0@ != name && opt_view(t[0].1.url) != Some(url));
        lemma_match_index_at(d, name, url, i - 1);
    }
}

/// With no registry named on the command line or in the environment, and
/// no top-level section, the run uses the registry the settings name with
/// its URL, and the section that registry sets. `i` is the entry of the
/// table the settings name: the first with that name, and no earlier entry
/// at its URL.
pub proof fn lemma_named_registry_section(c: BaseConfig, env: EnvRegistryParams, i: int)
    requires
        c.spec_registry_use() is Some,
        0 <= i < reg_table(c).len(),
        reg_table(c)[i].0@ == c.spec_registry_use()->Some_0,
        reg_table(c)[i].1.url is Some,
        forall|j: int|
            0 <= j < i ==> (#[trigger] reg_table(c)[j]).0@ != c.spec_registry_use()->Some_0
                && opt_view(reg_table(c)[j].1.url) != opt_view(reg_table(c)[i].1.url),
        reg_table(c)[i].1.section is Some,
        top_section_spec(Some(c)) is None,
        env.url is None,
        env.section is None,
    ensures
        registry_spec_of(None, None, None, Some(c), env) matches Some(r) && r.0 == reg_table(
            c,
        )[i].1.url->Some_0@ && r.2 == Some(reg_table(c)[i].1.section->Some_0@),
{
    let t = reg_table(c);
    let name = c.spec_registry_use()->Some_0;
    let url = t[i].1.url->Some_0@;
    lemma_named_index_at(t, name, i);
    lemma_match_index_at(t, name, url, i);
    assert(url_from_config_spec(Some(c)) == Some(url));
    assert(section_from_named_spec(Some(c), url) == Some(t[i].1.section->Some_0@));
}

/// The registry a run uses, from the command line, the environment and the
/// settings, in that order of precedence.
pub fn resolve_registry_spec(
    cli_url: Option<&str>,
    cli_ref: Option<&str>,
    cli_section: Option<&str>,
    base_config: Option<&BaseConfig>,
    env_params: &EnvRegistryParams,
) -> (r: Option<RegistrySpec>)
    ensures
        registry_spec_of(
            arg_view(cli_url),
            arg_view(cli_ref),
            arg_view(cli_section),
            match base_config {
                Some(c) => Some(*c),
                None => None,
            },
            *env_params,
        ) == match r {
            Some(s) => Some(spec_view(s)),
            None => None,
        },
{
    let url = match pick(cli_url, &env_params.url, resolve_url_from_config(base_config)) {
        Some(u) => u,
        None => return None,
    };
    let ref_name = match pick(
        cli_ref,
        &env_params.ref_name,
        resolve_ref_from_config(base_config, url.as_str()),
    ) {
        Some(r) => r,
        None => owned("HEAD"),
    };
    let top = resolve_section_from_top_level(base_config);
    let inner = match top {
        Some(s) => Some(s),
        None => resolve_section_from_named_registry(base_config, url.as_str()),
    };
    let section = pick(cli_section, &env_params.section, inner);
    Some(RegistrySpec { url, ref_name, section })
}

// ---------------------------------------------------------------------------
// Kinds of registry locations and refs
// ---------------------------------------------------------------------------
/// Whether a URL names a local directory: an absolute or `./` or `../` path,
/// `.` or `..`, or a path that exists.
pub open spec fn is_local_spec(url: Seq<char>, exists: bool) -> bool {
    seq_starts_with(url, seq!['/']) || seq_starts_with(url, seq!['.', '/']) || seq_starts_with(
        url,
        seq!['.', '.', '/'],
    ) || url == seq!['.'] || url == seq!['.', '.'] || exists
}

/// Whether a registry URL names a local directory; `exists` tells whether
/// the URL is an existing path.
pub fn is_local_path(url: &str, exists: bool) -> (r: bool)
    ensures
        r == is_local_spec(url@, exists),
{
    let u = str_to_chars(url);
    let n = u.len();
    let starts_slash = n >= 1 && u[0] == '/';
    let starts_dot_slash = n >= 2 && u[0] == '.' && u[1] == '/';
    let starts_dotdot_slash = n >= 3 && u[0] == '.' && u[1] == '.' && u[2] == '/';
    let is_dot = n == 1 && u[0] == '.';
    let is_dotdot = n == 2 && u[0] == '.' && u[1] == '.';
    proof {
        if n >= 1 {
            assert(u@.subrange(0, 1) =~= seq![u@[0]]);
        }
        if n >= 2 {
            assert(u@.subrange(0, 2) =~= seq![u@[0], u@[1]]);
        }
        if n >= 3 {
            assert(u@.subrange(0, 3) =~= seq![u@[0], u@[1], u@[2]]);
        }
        if n == 1 {
            assert(u@ =~= seq![u@[0]]);
        }
        if n == 2 {
            assert(u@ =~= seq![u@[0], u@[1]]);
        }
    }
    starts_slash || starts_dot_slash || starts_dotdot_slash || is_dot || is_dotdot || exists
}

/// Whether `std` counts a character as numeric (`char::is_numeric`).
pub uninterp spec fn unicode_numeric(c: char) -> bool;

/// `char::is_numeric`: whether `c` has a numeric Unicode category (Nd, Nl,
/// No). The contract names the answer; the Unicode tables are std's and are
/// not restated.
#[verifier::external_body]
fn is_numeric_char(c: char) -> (r: bool)
    ensures
        r == unicode_numeric(c),
{
    c.is_numeric()
}

/// A ref that looks like a version tag: `v` followed by a numeric character.
pub open spec fn is_version_tag_spec(r: Seq<char>) -> bool {
    r.len() >= 2 && r[0] == 'v' && unicode_numeric(r[1])
}

/// Whether a ref looks like a version tag (`v1`, `v1.0`, `v2.3.1-rc1`).
pub fn is_version_tag(ref_name: &str) -> (r: bool)
    ensures
        r == is_version_tag_spec(ref_name@),
{
    let v = str_to_chars(ref_name);
    if v.len() >= 2 && v[0] == 'v' {
        is_numeric_char(v[1])
    } else {
        false
    }
}

// ---------------------------------------------------------------------------
// Cache location
// ---------------------------------------------------------------------------
/// The default hasher's digest of a text fed as `str`'s `Hash` feeds it:
/// its bytes, then the byte `0xff`.
fn text_hash(text: &str) -> (r: u64)
    ensures
        r == DefaultHasher::spec_finish(seq![text.spec_bytes(), seq![0xffu8]]),
{
    let mut h = DefaultHasher::new();
    let bytes = text.as_bytes();
    h.write(bytes);
    let end: Vec<u8> = vec![0xffu8];
    let tail = end.as_slice();
    h.write(tail);
    assert(tail@ =~= seq![0xffu8]);
    assert(h@ =~~= seq![text.spec_bytes(), seq![0xffu8]]);
    h.finish()
}

/// The lowercase hexadecimal digit for `d < 16`.
pub open spec fn hex_digit(d: nat) -> char {
    if d < 10 {
        ((d + 48) as u32) as char
    } else {
        ((d + 87) as u32) as char
    }
}

/// Lowercase hexadecimal notation without leading zeros (`{:x}`).
pub open spec fn hex(n: nat) -> Seq<char>
    decreases n,
{
    if n < 16 {
        seq![hex_digit(n)]
    } else {
        hex(n / 16).push(hex_digit(n % 16))
    }
}

/// The hexadecimal digit of `d`.
fn hex_char(d: u64) -> (c: char)
    requires
        d < 16,
    ensures
        c == hex_digit(d as nat),
{
    if d < 10 {
        ((d as u8) + 48) as char
    } else {
        ((d as u8) + 87) as char
    }
}

/// Lowercase hexadecimal notation of a number.
pub fn u64_to_hex(n: u64) -> (r: String)
    ensures
        r@ == hex(n as nat),
    decreases n,
{
    if n < 16 {
        let mut s = String::new();
        crate::text::push_char(&mut s, hex_char(n));
        assert(s@ =~= seq![hex_digit(n as nat)]);
        s
    } else {
        let mut s = u64_to_hex(n / 16);
        crate::text::push_char(&mut s, hex_char(n % 16));
        s
    }
}

/// The directory name a registry's copy is cached under: the standard
/// library's default hash of `url#ref` (fed as a `str`), in hexadecimal.
pub open spec fn cache_id_spec(url: Seq<char>, ref_name: Seq<char>) -> Seq<char> {
    hex(
        DefaultHasher::spec_finish(
            seq![encode_utf8(url + "#"@ + ref_name), seq![0xffu8]],
        ) as nat,
    )
}

/// The directory name a registry's copy is cached under.
pub fn registry_cache_id(url: &str, ref_name: &str) -> (r: String)
    ensures
        r@ == cache_id_spec(url@, ref_name@),
{
    let key = crate::text::concat3(url, "#", ref_name);
    let h = text_hash(key.as_str());
    u64_to_hex(h)
}

/// A lowercase hexadecimal digit.
pub open spec fn is_lower_hex(c: char) -> bool {
    ('0' <= c <= '9') || ('a' <= c <= 'f')
}

/// Hexadecimal notation is a non-empty run of lowercase hex digits.
pub proof fn lemma_hex_lowercase(n: nat)
    ensures
        hex(n).len() > 0,
        forall|i: int| 0 <= i < hex(n).len() ==> is_lower_hex(#[trigger] hex(n)[i]),
    decreases n,
{
    assert forall|d: nat| d < 16 implies is_lower_hex(#[trigger] hex_digit(d)) by {
        if d < 10 {
            assert(((d + 48) as u32) as char as u32 == d + 48);
        } else {
            assert(((d + 87) as u32) as char as u32 == d + 87);
        }
    }
    if n >= 16 {
        lemma_hex_lowercase(n / 16);
        assert(hex_digit(n % 16) == hex(n).last());
    } else {
        assert(hex_digit(n) == hex(n)[0]);
    }
}

/// A registry's cache directory name is a non-empty run of lowercase hex
/// digits, whatever its URL and ref.
pub proof fn lemma_cache_id_is_lowercase_hex(url: Seq<char>, ref_name: Seq<char>)
    ensures
        cache_id_spec(url, ref_name).len() > 0,
        forall|i: int|
            0 <= i < cache_id_spec(url, ref_name).len() ==> is_lower_hex(
                #[trigger] cache_id_spec(url, ref_name)[i],
            ),
{
    lemma_hex_lowercase(
        DefaultHasher::spec_finish(seq![encode_utf8(url + "#"@ + ref_name), seq![0xffu8]]) as nat,
    );
}

/// Where a registry's copy is cached: `<cache dir>/registries/<id>`; the
/// section does not change it.
pub fn registry_cache_path(url: &str, ref_name: &str, cache_dir: &str) -> (r: String)
    ensures
        r@ == join_spec(join_spec(cache_dir@, "registries"@), cache_id_spec(url@, ref_name@)),
{
    let id = registry_cache_id(url, ref_name);
    let base = join(cache_dir, crate::paths::REGISTRIES_DIR_NAME);
    join(base.as_str(), id.as_str())
}

/// The cached copy to evict before loading `spec`: the copy of the last
/// registry when it had the same URL and another ref.
pub fn stale_cache_path(state: &AppState, spec: &RegistrySpec) -> (r: Option<String>)
    ensures
        match state.registry {
            Some(prev) => if prev.url@ == spec.url@ && prev.ref_name@ != spec.ref_name@ {
                r matches Some(p) && p@ == prev.cache_path@
            } else {
                r is None
            },
            None => r is None,
        },
{
    match &state.registry {
        Some(prev) => {
            if !str_eq(prev.url.as_str(), spec.url.as_str()) || str_eq(
                prev.ref_name.as_str(),
                spec.ref_name.as_str(),
            ) {
                None
            } else {
                Some(prev.cache_path.clone())
            }
        },
        None => None,
    }
}

// ---------------------------------------------------------------------------
// Loading a Git registry
// ---------------------------------------------------------------------------
/// What loading a Git registry does before reading its files.
#[derive(Debug, Clone, Copy, PartialEq, Eq, Structural)]
pub enum GitRegistryStep {
    /// The cached copy of a version tag is used as it is.
    UseCache,
    /// The cached copy is synchronised when the remote has changes.
    Sync,
    /// The repository is cloned at the tag.
    Clone,
    /// The repository is cloned and the ref checked out.
    CloneAndCheckout,
}

/// The step of loading a Git registry, from whether its copy is cached.
pub fn git_registry_step(spec: &RegistrySpec, cached: bool) -> (r: GitRegistryStep)
    ensures
        r == if cached {
            if is_version_tag_spec(spec.ref_name@) {
                GitRegistryStep::UseCache
            } else {
                GitRegistryStep::Sync
            }
        } else if is_version_tag_spec(spec.ref_name@) {
            GitRegistryStep::Clone
        } else {
            GitRegistryStep::CloneAndCheckout
        },
{
    let tag = is_version_tag(spec.ref_name.as_str());
    if cached {
        if tag {
            GitRegistryStep::UseCache
        } else {
            GitRegistryStep::Sync
        }
    } else if tag {
        GitRegistryStep::Clone
    } else {
        GitRegistryStep::CloneAndCheckout
    }
}

/// The arguments of the `git clone` of a registry into `dest`: a shallow
/// clone of the tag for a version tag, else a shallow clone of all branches.
pub fn clone_args(spec: &RegistrySpec, dest: &str) -> (r: Vec<String>)
    ensures
        crate::check::texts(r@) == if is_version_tag_spec(spec.ref_name@) {
            seq!["clone"@, "--depth"@, "1"@, "--branch"@, spec.ref_name@, spec.url@, dest@]
        } else {
            seq!["clone"@, "--depth"@, "1"@, "--no-single-branch"@, spec.url@, dest@]
        },
{
    let mut v: Vec<String> = Vec::new();
    v.push(owned("clone"));
    v.push(owned("--depth"));
    v.push(owned("1"));
    if is_version_tag(spec.ref_name.as_str()) {
        v.push(owned("--branch"));
        v.push(spec.ref_name.clone());
        v.push(spec.url.clone());
        v.push(owned(dest));
        assert(crate::check::texts(v@) =~= seq![
            "clone"@,
            "--depth"@,
            "1"@,
            "--branch"@,
            spec.ref_name@,
            spec.url@,
            dest@,
        ]);
    } else {
        v.push(owned("--no-single-branch"));
        v.push(spec.url.clone());
        v.push(owned(dest));
        assert(crate::check::texts(v@) =~= seq![
            "clone"@,
            "--depth"@,
            "1"@,
            "--no-single-branch"@,
            spec.url@,
            dest@,
        ]);
    }
    v
}

// ---------------------------------------------------------------------------
// Reading a registry
// ---------------------------------------------------------------------------
/// The directory a registry's files are read from: its section's directory
/// under the root, or the root.
pub open spec fn registry_dir_spec(root: Seq<char>, section: Option<String>) -> Seq<char> {
    match section {
        Some(s) => join_spec(root, s@),
        None => root,
    }
}

/// The directory a registry's files are read from.
pub fn registry_dir(root: &str, section: &Option<String>) -> (r: String)
    ensures
        r@ == registry_dir_spec(root@, *section),
{
    match section {
        Some(s) => join(root, s.as_str()),
        None => owned(root),
    }
}

/// The error of a local registry directory that does not exist.
pub fn missing_local_registry(dir: &str) -> (e: Error)
    ensures
        e.code == ErrorCode::RegistrySectionMissing,
        context_view(e) == seq![("path"@, dir@)],
{
    let e = ErrorCode::RegistrySectionMissing.error().with_context("path", dir);
    assert(context_view(e) =~= seq![("path"@, dir@)]);
    e
}

/// The error of a section directory missing from a cached registry.
pub fn missing_section_error(section: &Option<String>, dir: &str) -> (e: Error)
    ensures
        e.code == ErrorCode::RegistrySectionMissing,
        context_view(e) == seq![
            (
                "section"@,
                match *section {
                    Some(s) => s@,
                    None => "(root)"@,
                },
            ),
            ("path"@, dir@),
        ],
{
    let name = match section {
        Some(s) => s.as_str(),
        None => "(root)",
    };
    let e = ErrorCode::RegistrySectionMissing.error().with_context("section", name).with_context(
        "path",
        dir,
    );
    assert(context_view(e) =~= seq![("section"@, name@), ("path"@, dir@)]);
    e
}

/// What loading a registry gives: its layer and the commit it is at
/// (`local` for a local directory).
#[derive(Debug)]
pub struct RegistryLoadResult {
    pub config: AvailableConfig,
    pub resolved_commit: String,
}

/// The layer a registry directory gives: its settings file is required
/// (its settings are those parsed from it, none where it did not parse);
/// its rules file is optional.
pub fn read_registry_dir(
    dir: &str,
    config_exists: bool,
    base: Option<BaseConfig>,
    rules: Option<RulesConfig>,
) -> (r: Result<AvailableConfig, Error>)
    ensures
        if config_exists {
            r matches Ok(c) && c.base == base && c.rules == rules
        } else {
            r matches Err(e) && e.code == ErrorCode::RegistryInvalid && context_view(e) == seq![
                ("missing_file"@, join_spec(dir@, REGISTRY_BASE_CONFIG_FILE_NAME@)),
            ]
        },
{
    if !config_exists {
        let path = join(dir, REGISTRY_BASE_CONFIG_FILE_NAME);
        let e = ErrorCode::RegistryInvalid.error().with_context("missing_file", path.as_str());
        assert(context_view(e) =~= seq![("missing_file"@, path@)]);
        return Err(e);
    }
    Ok(resolve_available_config(base, rules))
}

/// Whether the remote has moved on: the local commit differs from the
/// trimmed remote `HEAD`, where it could be read; without it, no.
pub fn remote_changed(local_head: &str, remote_head: Option<&str>) -> (r: bool)
    ensures
        r == match remote_head {
            Some(out) => local_head@ != trim(out@),
            None => false,
        },
{
    match remote_head {
        Some(out) => {
            let v = str_to_chars(out);
            let (a, b) = trim_bounds(&v);
            let t = chars_to_string(&v, a, b);
            !str_eq(local_head, t.as_str())
        },
        None => false,
    }
}

/// The error of a Git command of the registry that could not be run.
pub fn git_spawn_error(args: &Vec<String>, err: &str) -> (e: Error)
    ensures
        e.code == ErrorCode::GitCommandFailed,
        context_view(e) == seq![("command"@, command_text_spec(texts(args@))), ("error"@, err@)],
{
    let cmd = command_text(args);
    let e = ErrorCode::GitCommandFailed.error().with_context("command", cmd.as_str()).with_context(
        "error",
        err,
    );
    assert(context_view(e) =~= seq![("command"@, cmd@), ("error"@, err@)]);
    e
}

/// The error of a Git command of the registry that failed.
pub fn git_run_failure(args: &Vec<String>, stderr: &str, stdout: &str) -> (e: Error)
    ensures
        e.code == ErrorCode::RegistrySyncFailed,
        context_view(e) == seq![
            ("command"@, command_text_spec(texts(args@))),
            ("stderr"@, stderr@),
            ("stdout"@, stdout@),
        ],
{
    let cmd = command_text(args);
    let e = ErrorCode::RegistrySyncFailed.error().with_context("command", cmd.as_str())
        .with_context("stderr", stderr).with_context("stdout", stdout);
    assert(context_view(e) =~= seq![("command"@, cmd@), ("stderr"@, stderr@), ("stdout"@, stdout@)]);
    e
}

} // verus!
