//! Rustc option validation and cargo-to-rustc translation.

use crate::text::{has_prefix, lemma_views_push, owned, str_eq, str_starts_with, views};
use vstd::prelude::*;
use vstd::utf8::encode_utf8;

verus! {

/// The rustc equivalent of a cargo option, where one exists.
pub open spec fn cargo_to_rustc(o: Seq<char>) -> Option<Seq<char>> {
    if o == "--release"@ {
        Some("-O"@)
    } else if o == "--debug"@ {
        Some("-g"@)
    } else if o == "--target"@ {
        Some("--target"@)
    } else if o == "--verbose"@ || o == "-v"@ {
        Some("-v"@)
    } else if o == "--lib"@ {
        Some("--crate-type=lib"@)
    } else if o == "--test"@ {
        Some("--test"@)
    } else {
        None
    }
}

pub open spec fn opt_str_view(r: Option<&str>) -> Option<Seq<char>> {
    match r {
        Some(s) => Some(s@),
        None => None,
    }
}

/// Translate cargo options to rustc equivalents.
pub fn translate_cargo_to_rustc(option: &str) -> (r: Option<&'static str>)
    ensures
        opt_str_view(r) == cargo_to_rustc(option@),
{
    if str_eq(option, "--release") {
        Some("-O")
    } else if str_eq(option, "--debug") {
        Some("-g")
    } else if str_eq(option, "--target") {
        Some("--target")
    } else if str_eq(option, "--verbose") || str_eq(option, "-v") {
        Some("-v")
    } else if str_eq(option, "--lib") {
        Some("--crate-type=lib")
    } else if str_eq(option, "--test") {
        Some("--test")
    } else {
        None
    }
}

pub open spec fn is_short_rustc_flag(o: Seq<char>) -> bool {
    o == "-h"@
    || o == "-g"@
    || o == "-O"@
    || o == "-o"@
    || o == "-A"@
    || o == "-W"@
    || o == "-D"@
    || o == "-F"@
    || o == "-C"@
    || o == "-V"@
    || o == "-v"@
    || o == "-L"@
    || o == "-l"@
}

pub open spec fn is_long_rustc_flag(o: Seq<char>) -> bool {
    o == "--help"@
    || o == "--cfg"@
    || o == "--check-cfg"@
    || o == "--crate-type"@
    || o == "--crate-name"@
    || o == "--edition"@
    || o == "--emit"@
    || o == "--print"@
    || o == "--out-dir"@
    || o == "--explain"@
    || o == "--test"@
    || o == "--target"@
    || o == "--allow"@
    || o == "--warn"@
    || o == "--force-warn"@
    || o == "--deny"@
    || o == "--forbid"@
    || o == "--cap-lints"@
    || o == "--codegen"@
    || o == "--version"@
    || o == "--verbose"@
    || o == "--extern"@
    || o == "--sysroot"@
    || o == "--error-format"@
    || o == "--json"@
    || o == "--color"@
    || o == "--diagnostic-width"@
    || o == "--remap-path-prefix"@
    || o == "--env-set"@
}

/// Length in bytes of the UTF-8 encoding, as `str::len` computes it.
pub open spec fn utf8_len(o: Seq<char>) -> usize {
    encode_utf8(o).len() as usize
}

/// Whether rustc accepts `o` as an option; `byte_len` is its UTF-8 length.
pub open spec fn rustc_option_ok(o: Seq<char>) -> bool {
    if utf8_len(o) == 2 && has_prefix(o, "-"@) {
        is_short_rustc_flag(o)
    } else if has_prefix(o, "--"@) {
        is_long_rustc_flag(o)
    } else {
        has_prefix(o, "-C"@) || has_prefix(o, "--codegen"@) || has_prefix(o, "-L"@) || has_prefix(
            o,
            "-l"@,
        )
    }
}

/// Check if an option is valid for rustc.
pub fn is_valid_rustc_option(option: &str) -> (r: bool)
    ensures
        r == rustc_option_ok(option@),
{
    if option.len() == 2 && str_starts_with(option, "-") {
        str_eq(option, "-h")
        || str_eq(option, "-g")
        || str_eq(option, "-O")
        || str_eq(option, "-o")
        || str_eq(option, "-A")
        || str_eq(option, "-W")
        || str_eq(option, "-D")
        || str_eq(option, "-F")
        || str_eq(option, "-C")
        || str_eq(option, "-V")
        || str_eq(option, "-v")
        || str_eq(option, "-L")
        || str_eq(option, "-l")
    } else if str_starts_with(option, "--") {
        str_eq(option, "--help")
        || str_eq(option, "--cfg")
        || str_eq(option, "--check-cfg")
        || str_eq(option, "--crate-type")
        || str_eq(option, "--crate-name")
        || str_eq(option, "--edition")
        || str_eq(option, "--emit")
        || str_eq(option, "--print")
        || str_eq(option, "--out-dir")
        || str_eq(option, "--explain")
        || str_eq(option, "--test")
        || str_eq(option, "--target")
        || str_eq(option, "--allow")
        || str_eq(option, "--warn")
        || str_eq(option, "--force-warn")
        || str_eq(option, "--deny")
        || str_eq(option, "--forbid")
        || str_eq(option, "--cap-lints")
        || str_eq(option, "--codegen")
        || str_eq(option, "--version")
        || str_eq(option, "--verbose")
        || str_eq(option, "--extern")
        || str_eq(option, "--sysroot")
        || str_eq(option, "--error-format")
        || str_eq(option, "--json")
        || str_eq(option, "--color")
        || str_eq(option, "--diagnostic-width")
        || str_eq(option, "--remap-path-prefix")
        || str_eq(option, "--env-set")
    } else if str_starts_with(option, "-C") || str_starts_with(option, "--codegen") {
        true
    } else {
        str_starts_with(option, "-L") || str_starts_with(option, "-l")
    }
}

/// The rustc flags that stand for a build profile.
pub open spec fn rustc_profile_flags(profile: Seq<char>) -> Seq<Seq<char>> {
    if profile == "release"@ {
        seq!["-O"@, "-C"@, "lto=yes"@, "-C"@, "codegen-units=1"@]
    } else if profile == "debug"@ {
        seq!["-g"@, "-C"@, "opt-level=0"@]
    } else if profile == "test"@ {
        seq!["--test"@, "-g"@]
    } else {
        seq![]
    }
}

pub open spec fn str_views(v: Seq<&str>) -> Seq<Seq<char>> {
    v.map_values(|x: &str| x@)
}

/// Get rustc optimization flags based on profile.
pub fn get_rustc_optimization_flags(profile: &str) -> (r: Vec<&'static str>)
    ensures
        str_views(r@) == rustc_profile_flags(profile@),
{
    let r: Vec<&'static str> = if str_eq(profile, "release") {
        vec!["-O", "-C", "lto=yes", "-C", "codegen-units=1"]
    } else if str_eq(profile, "debug") {
        vec!["-g", "-C", "opt-level=0"]
    } else if str_eq(profile, "test") {
        vec!["--test", "-g"]
    } else {
        vec![]
    };
    assert(str_views(r@) =~= rustc_profile_flags(profile@));
    r
}

pub const RUSTC_TRANSLATION_HELP: &'static str = "Cargo to Rustc Option Translation:

Common Cargo options and their Rustc equivalents:
  --release           →  -O (optimize) + -C lto=yes + -C codegen-units=1
  --debug             →  -g (debug info)
  --test              →  --test (build test harness)
  --lib               →  --crate-type=lib
  --target <TARGET>   →  --target <TARGET>
  --verbose/-v        →  -v

Options with no Rustc equivalent (will be ignored):
  --features, --all-features, --no-default-features
  --bin, --example, --bench
  --quiet/-q

For rustc scripts, you can use native rustc options:
  -O              Optimize (equivalent to -C opt-level=3)
  -g              Include debug info
  -C <OPT>=<VAL>  Set codegen options (e.g., -C lto=yes)
  --edition       Set Rust edition (2015|2018|2021|2024)
  --crate-type    Set output type (bin|lib|rlib|dylib|cdylib|staticlib)
  
Example overrides for rustc:
  -O                        # Optimize for release
  -g                        # Include debug symbols
  --edition 2021            # Use Rust 2021 edition
  -C target-cpu=native      # Optimize for native CPU
";

/// Get help text for cargo-to-rustc option translation.
pub fn get_rustc_translation_help() -> (r: &'static str)
    ensures
        r@ == RUSTC_TRANSLATION_HELP@,
{
    RUSTC_TRANSLATION_HELP
}

/// Whether a rustc option takes a value.
pub open spec fn rustc_needs_value(o: Seq<char>) -> bool {
    o == "--cfg"@
    || o == "--check-cfg"@
    || o == "--crate-type"@
    || o == "--crate-name"@
    || o == "--edition"@
    || o == "--emit"@
    || o == "--print"@
    || o == "--out-dir"@
    || o == "--explain"@
    || o == "--target"@
    || o == "--allow"@
    || o == "--warn"@
    || o == "--force-warn"@
    || o == "--deny"@
    || o == "--forbid"@
    || o == "--cap-lints"@
    || o == "--codegen"@
    || o == "-o"@
    || o == "-L"@
    || o == "-l"@
    || o == "--extern"@
    || o == "--sysroot"@
    || o == "--error-format"@
    || o == "--json"@
    || o == "--color"@
    || o == "--diagnostic-width"@
    || o == "--remap-path-prefix"@
    || o == "--env-set"@
    || o == "-C"@
    || o == "-A"@
    || o == "-W"@
    || o == "-D"@
    || o == "-F"@
}

/// Check if a rustc option needs a value.
fn needs_value(option: &str) -> (r: bool)
    ensures
        r == rustc_needs_value(option@),
{
    str_eq(option, "--cfg")
    || str_eq(option, "--check-cfg")
    || str_eq(option, "--crate-type")
    || str_eq(option, "--crate-name")
    || str_eq(option, "--edition")
    || str_eq(option, "--emit")
    || str_eq(option, "--print")
    || str_eq(option, "--out-dir")
    || str_eq(option, "--explain")
    || str_eq(option, "--target")
    || str_eq(option, "--allow")
    || str_eq(option, "--warn")
    || str_eq(option, "--force-warn")
    || str_eq(option, "--deny")
    || str_eq(option, "--forbid")
    || str_eq(option, "--cap-lints")
    || str_eq(option, "--codegen")
    || str_eq(option, "-o")
    || str_eq(option, "-L")
    || str_eq(option, "-l")
    || str_eq(option, "--extern")
    || str_eq(option, "--sysroot")
    || str_eq(option, "--error-format")
    || str_eq(option, "--json")
    || str_eq(option, "--color")
    || str_eq(option, "--diagnostic-width")
    || str_eq(option, "--remap-path-prefix")
    || str_eq(option, "--env-set")
    || str_eq(option, "-C")
    || str_eq(option, "-A")
    || str_eq(option, "-W")
    || str_eq(option, "-D")
    || str_eq(option, "-F")
}

/// The options that `validate_and_translate_options` produces for rustc from
/// `opts[i..]`.
pub open spec fn translate_from(opts: Seq<Seq<char>>, i: int) -> Seq<Seq<char>>
    decreases opts.len() - i,
{
    if i < 0 || i >= opts.len() {
        seq![]
    } else {
        let o = opts[i];
        match cargo_to_rustc(o) {
            Some(t) => if o == "--target"@ && i + 1 < opts.len() {
                seq![t, opts[i + 1]] + translate_from(opts, i + 2)
            } else {
                seq![t] + translate_from(opts, i + 1)
            },
            None => if rustc_option_ok(o) {
                if rustc_needs_value(o) && i + 1 < opts.len() && !has_prefix(opts[i + 1], "-"@) {
                    seq![o, opts[i + 1]] + translate_from(opts, i + 2)
                } else {
                    seq![o] + translate_from(opts, i + 1)
                }
            } else if o == "--profile"@ && i + 1 < opts.len() {
                rustc_profile_flags(opts[i + 1]) + translate_from(opts, i + 2)
            } else {
                translate_from(opts, i + 1)
            },
        }
    }
}

/// Validate and translate a set of options for rustc: with `is_rustc` false
/// the options come back unchanged.
pub fn validate_and_translate_options(options: &[String], is_rustc: bool) -> (r: Vec<String>)
    ensures
        views(r@) == if is_rustc {
            translate_from(views(options@), 0)
        } else {
            views(options@)
        },
{
    let ghost ov = views(options@);
    let n = options.len();
    if !is_rustc {
        let mut out: Vec<String> = Vec::new();
        let mut k: usize = 0;
        while k < n
            invariant
                n == options@.len(),
                k <= n,
                ov == views(options@),
                out@.len() == k,
                views(out@) == ov.take(k as int),
            decreases n - k,
        {
            let c = options[k].clone();
            assert(c@ == ov[k as int]);
            out.push(c);
            proof {
                assert(views(out@).len() == k + 1);
                assert(views(out@)[k as int] == ov[k as int]);
                assert(views(out@) =~= ov.take(k + 1));
            }
            k += 1;
        }
        assert(ov.take(n as int) =~= ov);
        return out;
    }
    let mut translated: Vec<String> = Vec::new();
    let mut i: usize = 0;
    while i < n
        invariant
            n == options@.len(),
            i <= n + 1,
            ov == views(options@),
            translate_from(ov, 0) == views(translated@) + translate_from(ov, i as int),
        decreases n + 1 - i,
    {
        let option = options[i].as_str();
        let ghost before = views(translated@);
        match translate_cargo_to_rustc(option) {
            Some(rustc_opt) => {
                let t = owned(rustc_opt);
                proof {
                    lemma_views_push(translated@, t);
                }
                translated.push(t);
                if str_eq(option, "--target") && i + 1 < n {
                    let v = options[i + 1].clone();
                    proof {
                        lemma_views_push(translated@, v);
                    }
                    translated.push(v);
                    proof {
                        assert(views(translated@) =~= before + seq![t@, ov[i + 1]]);
                    }
                    i += 2;
                } else {
                    assert(views(translated@) =~= before + seq![t@]);
                    i += 1;
                }
            },
            None => {
                if is_valid_rustc_option(option) {
                    let o = options[i].clone();
                    proof {
                        lemma_views_push(translated@, o);
                    }
                    translated.push(o);
                    if needs_value(option) && i + 1 < n && !str_starts_with(
                        options[i + 1].as_str(),
                        "-",
                    ) {
                        let v = options[i + 1].clone();
                        proof {
                            lemma_views_push(translated@, v);
                        }
                        translated.push(v);
                        assert(views(translated@) =~= before + seq![ov[i as int], ov[i + 1]]);
                        i += 2;
                    } else {
                        assert(views(translated@) =~= before + seq![ov[i as int]]);
                        i += 1;
                    }
                } else if str_eq(option, "--profile") && i + 1 < n {
                    let flags = get_rustc_optimization_flags(options[i + 1].as_str());
                    let mut k: usize = 0;
                    while k < flags.len()
                        invariant
                            k <= flags@.len(),
                            views(translated@) == before + str_views(flags@).take(k as int),
                        decreases flags.len() - k,
                    {
                        let f = owned(flags[k]);
                        proof {
                            lemma_views_push(translated@, f);
                        }
                        translated.push(f);
                        proof {
                            assert(views(translated@) =~= before + str_views(flags@).take(k + 1));
                        }
                        k += 1;
                    }
                    assert(str_views(flags@).take(flags@.len() as int) =~= str_views(flags@));
                    i += 2;
                } else {
                    assert(views(translated@) =~= before);
                    i += 1;
                }
            },
        }
    }
    assert(translate_from(ov, i as int) == Seq::<Seq<char>>::empty());
    assert(views(translated@) =~= views(translated@) + Seq::<Seq<char>>::empty());
    translated
}

/// A string of ASCII characters takes one byte per character in UTF-8.
proof fn lemma_ascii_utf8_len(s: Seq<char>)
    requires
        forall|k: int| 0 <= k < s.len() ==> (#[trigger] s[k] as u32) < 128,
    ensures
        encode_utf8(s).len() == s.len(),
    decreases s.len(),
{
    if s.len() > 0 {
        assert forall|k: int| 0 <= k < s.drop_first().len() implies (#[trigger] s.drop_first()[k] as u32) < 128 by {
            assert(s.drop_first()[k] == s[k + 1]);
        }
        lemma_ascii_utf8_len(s.drop_first());
    }
}

/// Each option that rustc reads a value for is accepted by rustc, is one
/// that takes a value, and is no cargo option that translates differently.
proof fn lemma_value_option_facts(o: Seq<char>)
    requires
        o == "--cfg"@
        || o == "--check-cfg"@
        || o == "--crate-type"@
        || o == "--crate-name"@
        || o == "--edition"@
        || o == "--emit"@
        || o == "--print"@
        || o == "--out-dir"@
        || o == "--explain"@
        || o == "--target"@
        || o == "--allow"@
        || o == "--warn"@
        || o == "--force-warn"@
        || o == "--deny"@
        || o == "--forbid"@
        || o == "--cap-lints"@
        || o == "--codegen"@
        || o == "-o"@
        || o == "-L"@
        || o == "-l"@
        || o == "--extern"@
        || o == "--sysroot"@
        || o == "--error-format"@
        || o == "--json"@
        || o == "--color"@
        || o == "--diagnostic-width"@
        || o == "--remap-path-prefix"@
        || o == "--env-set"@
        || o == "-C"@
        || o == "-A"@
        || o == "-W"@
        || o == "-D"@
        || o == "-F"@,
    ensures
        rustc_option_ok(o),
        rustc_needs_value(o),
        cargo_to_rustc(o) is None || (o == "--target"@ && cargo_to_rustc(o) == Some(o)),
{
    reveal_strlit("-");
    reveal_strlit("--");
    reveal_strlit("-C");
    reveal_strlit("--codegen");
    reveal_strlit("-L");
    reveal_strlit("-l");
    reveal_strlit("--release");
    reveal_strlit("--debug");
    reveal_strlit("--verbose");
    reveal_strlit("-v");
    reveal_strlit("--lib");
    reveal_strlit("--test");
    reveal_strlit("--target");
    if o == "--cfg"@ {
        reveal_strlit("--cfg");
        lemma_ascii_utf8_len(o);
        assert(o.subrange(0, 2) =~= "--"@);
        assert(o[2] != "--lib"@[2]);
    } else if o == "--check-cfg"@ {
        reveal_strlit("--check-cfg");
        lemma_ascii_utf8_len(o);
        assert(o.subrange(0, 2) =~= "--"@);
    } else if o == "--crate-type"@ {
        reveal_strlit("--crate-type");
        lemma_ascii_utf8_len(o);
        assert(o.subrange(0, 2) =~= "--"@);
    } else if o == "--crate-name"@ {
        reveal_strlit("--crate-name");
        lemma_ascii_utf8_len(o);
        assert(o.subrange(0, 2) =~= "--"@);
    } else if o == "--edition"@ {
        reveal_strlit("--edition");
        lemma_ascii_utf8_len(o);
        assert(o.subrange(0, 2) =~= "--"@);
        assert(o[2] != "--release"@[2]);
        assert(o[2] != "--verbose"@[2]);
    } else if o == "--emit"@ {
        reveal_strlit("--emit");
        lemma_ascii_utf8_len(o);
        assert(o.subrange(0, 2) =~= "--"@);
        assert(o[2] != "--test"@[2]);
    } else if o == "--print"@ {
        reveal_strlit("--print");
        lemma_ascii_utf8_len(o);
        assert(o.subrange(0, 2) =~= "--"@);
        assert(o[2] != "--debug"@[2]);
    } else if o == "--out-dir"@ {
        reveal_strlit("--out-dir");
        lemma_ascii_utf8_len(o);
        assert(o.subrange(0, 2) =~= "--"@);
        assert(o[2] != "--release"@[2]);
        assert(o[2] != "--verbose"@[2]);
    } else if o == "--explain"@ {
        reveal_strlit("--explain");
        lemma_ascii_utf8_len(o);
        assert(o.subrange(0, 2) =~= "--"@);
        assert(o[2] != "--release"@[2]);
        assert(o[2] != "--verbose"@[2]);
    } else if o == "--target"@ {
        reveal_strlit("--target");
        lemma_ascii_utf8_len(o);
        assert(o.subrange(0, 2) =~= "--"@);
    } else if o == "--allow"@ {
        reveal_strlit("--allow");
        lemma_ascii_utf8_len(o);
        assert(o.subrange(0, 2) =~= "--"@);
        assert(o[2] != "--debug"@[2]);
    } else if o == "--warn"@ {
        reveal_strlit("--warn");
        lemma_ascii_utf8_len(o);
        assert(o.subrange(0, 2) =~= "--"@);
        assert(o[2] != "--test"@[2]);
    } else if o == "--force-warn"@ {
        reveal_strlit("--force-warn");
        lemma_ascii_utf8_len(o);
        assert(o.subrange(0, 2) =~= "--"@);
    } else if o == "--deny"@ {
        reveal_strlit("--deny");
        lemma_ascii_utf8_len(o);
        assert(o.subrange(0, 2) =~= "--"@);
        assert(o[2] != "--test"@[2]);
    } else if o == "--forbid"@ {
        reveal_strlit("--forbid");
        lemma_ascii_utf8_len(o);
        assert(o.subrange(0, 2) =~= "--"@);
    } else if o == "--cap-lints"@ {
        reveal_strlit("--cap-lints");
        lemma_ascii_utf8_len(o);
        assert(o.subrange(0, 2) =~= "--"@);
    } else if o == "--codegen"@ {
        reveal_strlit("--codegen");
        lemma_ascii_utf8_len(o);
        assert(o.subrange(0, 2) =~= "--"@);
        assert(o[2] != "--release"@[2]);
        assert(o[2] != "--verbose"@[2]);
    } else if o == "-o"@ {
        reveal_strlit("-o");
        lemma_ascii_utf8_len(o);
        assert(o.subrange(0, 1) =~= "-"@);
        assert(o[1] != "-v"@[1]);
    } else if o == "-L"@ {
        reveal_strlit("-L");
        lemma_ascii_utf8_len(o);
        assert(o.subrange(0, 1) =~= "-"@);
        assert(o[1] != "-v"@[1]);
    } else if o == "-l"@ {
        reveal_strlit("-l");
        lemma_ascii_utf8_len(o);
        assert(o.subrange(0, 1) =~= "-"@);
        assert(o[1] != "-v"@[1]);
    } else if o == "--extern"@ {
        reveal_strlit("--extern");
        lemma_ascii_utf8_len(o);
        assert(o.subrange(0, 2) =~= "--"@);
    } else if o == "--sysroot"@ {
        reveal_strlit("--sysroot");
        lemma_ascii_utf8_len(o);
        assert(o.subrange(0, 2) =~= "--"@);
        assert(o[2] != "--release"@[2]);
        assert(o[2] != "--verbose"@[2]);
    } else if o == "--error-format"@ {
        reveal_strlit("--error-format");
        lemma_ascii_utf8_len(o);
        assert(o.subrange(0, 2) =~= "--"@);
    } else if o == "--json"@ {
        reveal_strlit("--json");
        lemma_ascii_utf8_len(o);
        assert(o.subrange(0, 2) =~= "--"@);
        assert(o[2] != "--test"@[2]);
    } else if o == "--color"@ {
        reveal_strlit("--color");
        lemma_ascii_utf8_len(o);
        assert(o.subrange(0, 2) =~= "--"@);
        assert(o[2] != "--debug"@[2]);
    } else if o == "--diagnostic-width"@ {
        reveal_strlit("--diagnostic-width");
        lemma_ascii_utf8_len(o);
        assert(o.subrange(0, 2) =~= "--"@);
    } else if o == "--remap-path-prefix"@ {
        reveal_strlit("--remap-path-prefix");
        lemma_ascii_utf8_len(o);
        assert(o.subrange(0, 2) =~= "--"@);
    } else if o == "--env-set"@ {
        reveal_strlit("--env-set");
        lemma_ascii_utf8_len(o);
        assert(o.subrange(0, 2) =~= "--"@);
        assert(o[2] != "--release"@[2]);
        assert(o[2] != "--verbose"@[2]);
    } else if o == "-C"@ {
        reveal_strlit("-C");
        lemma_ascii_utf8_len(o);
        assert(o.subrange(0, 1) =~= "-"@);
        assert(o[1] != "-v"@[1]);
    } else if o == "-A"@ {
        reveal_strlit("-A");
        lemma_ascii_utf8_len(o);
        assert(o.subrange(0, 1) =~= "-"@);
        assert(o[1] != "-v"@[1]);
    } else if o == "-W"@ {
        reveal_strlit("-W");
        lemma_ascii_utf8_len(o);
        assert(o.subrange(0, 1) =~= "-"@);
        assert(o[1] != "-v"@[1]);
    } else if o == "-D"@ {
        reveal_strlit("-D");
        lemma_ascii_utf8_len(o);
        assert(o.subrange(0, 1) =~= "-"@);
        assert(o[1] != "-v"@[1]);
    } else if o == "-F"@ {
        reveal_strlit("-F");
        lemma_ascii_utf8_len(o);
        assert(o.subrange(0, 1) =~= "-"@);
        assert(o[1] != "-v"@[1]);
    }
}

/// The options that rustc reads a value for (`-o`, `--cfg`, `--edition`,
/// `-L`, `-C` and the others) keep their value: wherever the translation
/// reaches one of them and the next token does not start with `-`, the
/// output there is the option followed by that token, and the translation
/// goes on after it.
pub proof fn lemma_value_option_keeps_value(opts: Seq<Seq<char>>, i: int)
    requires
        0 <= i,
        i + 1 < opts.len(),
        !has_prefix(opts[i + 1], "-"@),
        opts[i] == "--cfg"@
            || opts[i] == "--check-cfg"@
            || opts[i] == "--crate-type"@
            || opts[i] == "--crate-name"@
            || opts[i] == "--edition"@
            || opts[i] == "--emit"@
            || opts[i] == "--print"@
            || opts[i] == "--out-dir"@
            || opts[i] == "--explain"@
            || opts[i] == "--target"@
            || opts[i] == "--allow"@
            || opts[i] == "--warn"@
            || opts[i] == "--force-warn"@
            || opts[i] == "--deny"@
            || opts[i] == "--forbid"@
            || opts[i] == "--cap-lints"@
            || opts[i] == "--codegen"@
            || opts[i] == "-o"@
            || opts[i] == "-L"@
            || opts[i] == "-l"@
            || opts[i] == "--extern"@
            || opts[i] == "--sysroot"@
            || opts[i] == "--error-format"@
            || opts[i] == "--json"@
            || opts[i] == "--color"@
            || opts[i] == "--diagnostic-width"@
            || opts[i] == "--remap-path-prefix"@
            || opts[i] == "--env-set"@
            || opts[i] == "-C"@
            || opts[i] == "-A"@
            || opts[i] == "-W"@
            || opts[i] == "-D"@
            || opts[i] == "-F"@,
    ensures
        translate_from(opts, i) == seq![opts[i], opts[i + 1]] + translate_from(opts, i + 2),
{
    lemma_value_option_facts(opts[i]);
}

} // verus!
