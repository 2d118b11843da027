//! Finding the address a development server prints, deciding when to
//! open it, and which program opens it.

use vstd::prelude::*;
use crate::text::{
    has_sub, lowercase, owned, replace, replace_seq, chars_of, string_from, str_contains, str_eq,
    to_lowercase,
};

verus! {

/// What `regex::Regex::new(pattern)` and then `captures(text)` and
/// `get(1)` give: `None` when the pattern does not compile, `Some(None)`
/// when there is no match or the first group did not take part, else the
/// first group's text. It depends on the two texts alone.
pub uninterp spec fn regex_first_group(pattern: Seq<char>, text: Seq<char>) -> Option<
    Option<Seq<char>>,
>;

/// Compiles `pattern` with `regex::Regex::new`, finds the first match in
/// `text` with `Regex::captures`, and takes its first group. Claimed: the
/// result is `regex_first_group` of the two texts; nothing is claimed about
/// what a pattern matches.
#[verifier::external_body]
pub(crate) fn regex_capture_group(pattern: &str, text: &str) -> (r: Option<Option<String>>)
    ensures
        match r {
            None => regex_first_group(pattern@, text@) is None,
            Some(None) => regex_first_group(pattern@, text@) == Some(None::<Seq<char>>),
            Some(Some(s)) => regex_first_group(pattern@, text@) == Some(Some(s@)),
        },
{
    match regex::Regex::new(pattern) {
        Ok(re) => match re.captures(text) {
            Some(c) => Some(c.get(1).map(|m| m.as_str().to_string())),
            None => Some(None),
        },
        Err(_) => None,
    }
}

/// The patterns tried, in order: "serving at", "listening on", "server
/// running on", "available at" (case aside), Leptos' "Listening on", then
/// any local address with a port.
pub open spec fn server_patterns() -> Seq<Seq<char>> {
    seq![
        "(?i)serving\\s+at\\s+(https?://[^\\s]+)"@,
        "(?i)listening\\s+on\\s+(https?://[^\\s]+)"@,
        "(?i)server\\s+running\\s+on\\s+(https?://[^\\s]+)"@,
        "(?i)available\\s+at\\s+(https?://[^\\s]+)"@,
        "(?i)Listening\\s+on\\s+(https?://[^\\s]+)"@,
        "(https?://(?:localhost|127\\.0\\.0\\.1|\\*+):[0-9]+)"@,
    ]
}

/// An address with its masked host (asterisks) replaced by `localhost`.
pub open spec fn fix_url(u: Seq<char>) -> Seq<char> {
    if u.contains('*') {
        let a = replace(replace(u, "*"@, ""@), "://:"@, "://localhost:"@);
        if has_sub(a, "localhost"@) {
            a
        } else {
            replace(a, "://"@, "://localhost"@)
        }
    } else {
        u
    }
}

/// The address the first pattern from index `i` on captures, fixed.
pub open spec fn url_from_patterns(patterns: Seq<Seq<char>>, text: Seq<char>, i: int) -> Option<
    Seq<char>,
>
    decreases patterns.len() - i,
{
    if i < 0 || i >= patterns.len() {
        None
    } else {
        match regex_first_group(patterns[i], text) {
            Some(Some(u)) => Some(fix_url(u)),
            _ => url_from_patterns(patterns, text, i + 1),
        }
    }
}

/// A captured address with a masked host (asterisks) replaced by
/// `localhost`.
pub fn server_url_from_capture(url: &str) -> (r: String)
    ensures
        r@ == fix_url(url@),
{
    let u = chars_of(url);
    let mut has_star = false;
    let mut i: usize = 0;
    while i < u.len()
        invariant
            i <= u@.len(),
            has_star == exists|k: int| 0 <= k < i && u@[k] == '*',
        decreases u.len() - i,
    {
        if u[i] == '*' {
            has_star = true;
        }
        i += 1;
    }
    if !has_star {
        assert(!u@.contains('*'));
        return owned(url);
    }
    let star = ['*'];
    let empty: [char; 0] = [];
    let colon = [':', '/', '/', ':'];
    let local_colon = [':', '/', '/', 'l', 'o', 'c', 'a', 'l', 'h', 'o', 's', 't', ':'];
    let sep = [':', '/', '/'];
    let local_sep = [':', '/', '/', 'l', 'o', 'c', 'a', 'l', 'h', 'o', 's', 't'];
    let local = ['l', 'o', 'c', 'a', 'l', 'h', 'o', 's', 't'];
    proof {
        reveal_strlit("*");
        reveal_strlit("");
        reveal_strlit("://:");
        reveal_strlit("://localhost:");
        reveal_strlit("://");
        reveal_strlit("://localhost");
        reveal_strlit("localhost");
        assert(star@ =~= "*"@);
        assert(empty@ =~= ""@);
        assert(colon@ =~= "://:"@);
        assert(local_colon@ =~= "://localhost:"@);
        assert(sep@ =~= "://"@);
        assert(local_sep@ =~= "://localhost"@);
        assert(local@ =~= "localhost"@);
    }
    let a1 = replace_seq(u.as_slice(), &star, &empty);
    let a = replace_seq(a1.as_slice(), &colon, &local_colon);
    if crate::text::contains_seq(a.as_slice(), &local) {
        string_from(a.as_slice())
    } else {
        let b = replace_seq(a.as_slice(), &sep, &local_sep);
        string_from(b.as_slice())
    }
}

/// Extract the address a development server prints in a line of output.
pub fn extract_server_url(output: &str) -> (r: Option<String>)
    ensures
        match r {
            Some(u) => url_from_patterns(server_patterns(), output@, 0) == Some(u@),
            None => url_from_patterns(server_patterns(), output@, 0) is None,
        },
{
    let patterns = [
        "(?i)serving\\s+at\\s+(https?://[^\\s]+)",
        "(?i)listening\\s+on\\s+(https?://[^\\s]+)",
        "(?i)server\\s+running\\s+on\\s+(https?://[^\\s]+)",
        "(?i)available\\s+at\\s+(https?://[^\\s]+)",
        "(?i)Listening\\s+on\\s+(https?://[^\\s]+)",
        "(https?://(?:localhost|127\\.0\\.0\\.1|\\*+):[0-9]+)",
    ];
    let ghost ps = server_patterns();
    assert(patterns@.map_values(|p: &str| p@) =~= ps);
    let mut i: usize = 0;
    while i < patterns.len()
        invariant
            i <= 6,
            patterns@.len() == 6,
            ps == server_patterns(),
            patterns@.map_values(|p: &str| p@) == ps,
            url_from_patterns(ps, output@, 0) == url_from_patterns(ps, output@, i as int),
        decreases 6 - i,
    {
        assert(ps[i as int] == patterns@[i as int]@);
        if let Some(Some(url)) = regex_capture_group(patterns[i], output) {
            return Some(server_url_from_capture(url.as_str()));
        }
        i += 1;
    }
    None
}

/// One step of watching a server's output: before the address was opened,
/// a line that shows one opens it; afterwards nothing more is opened.
pub fn browser_step(opened: bool, line: &str) -> (r: (bool, Option<String>))
    ensures
        match url_from_patterns(server_patterns(), line@, 0) {
            Some(u) => if opened {
                r.0 && r.1 is None
            } else {
                r.0 && (r.1 matches Some(s) && s@ == u)
            },
            None => r.0 == opened && r.1 is None,
        },
{
    if opened {
        let _ = extract_server_url(line);
        return (true, None);
    }
    match extract_server_url(line) {
        Some(url) => (true, Some(url)),
        None => (false, None),
    }
}

/// The program that opens a browser, from its name (case aside) and the
/// operating system (`macos`, `windows` or `linux`): the known browsers by
/// their usual program on that system, any other name as given. Safari
/// exists on macOS only. On another system a name is taken as given.
pub open spec fn browser_program(lower: Seq<char>, given: Seq<char>, os: Seq<char>) -> Option<
    Seq<char>,
> {
    if os != "macos"@ && os != "windows"@ && os != "linux"@ {
        Some(given)
    } else if lower == "chrome"@ || lower == "google-chrome"@ {
        Some(
            if os == "macos"@ {
                "/Applications/Google Chrome.app/Contents/MacOS/Google Chrome"@
            } else if os == "windows"@ {
                "chrome.exe"@
            } else {
                "google-chrome"@
            },
        )
    } else if lower == "firefox"@ {
        Some(
            if os == "macos"@ {
                "/Applications/Firefox.app/Contents/MacOS/firefox"@
            } else if os == "windows"@ {
                "firefox.exe"@
            } else {
                "firefox"@
            },
        )
    } else if lower == "safari"@ {
        if os == "macos"@ {
            Some("/Applications/Safari.app/Contents/MacOS/Safari"@)
        } else {
            None
        }
    } else if lower == "edge"@ || lower == "microsoft-edge"@ {
        Some(
            if os == "macos"@ {
                "/Applications/Microsoft Edge.app/Contents/MacOS/Microsoft Edge"@
            } else if os == "windows"@ {
                "msedge.exe"@
            } else {
                "microsoft-edge"@
            },
        )
    } else {
        Some(given)
    }
}

fn by_os(os: &str, mac: &'static str, win: &'static str, linux: &'static str) -> (r: String)
    ensures
        r@ == (if os@ == "macos"@ {
            mac@
        } else if os@ == "windows"@ {
            win@
        } else {
            linux@
        }),
{
    if str_eq(os, "macos") {
        owned(mac)
    } else if str_eq(os, "windows") {
        owned(win)
    } else {
        owned(linux)
    }
}

/// The program that opens a browser of the given name on the given
/// operating system; none for Safari off macOS.
pub fn browser_command(browser: &str, os: &str) -> (r: Option<String>)
    ensures
        match r {
            Some(p) => browser_program(lowercase(browser@), browser@, os@) == Some(p@),
            None => browser_program(lowercase(browser@), browser@, os@) is None,
        },
{
    if !str_eq(os, "macos") && !str_eq(os, "windows") && !str_eq(os, "linux") {
        return Some(owned(browser));
    }
    let lower = to_lowercase(browser);
    let l = lower.as_str();
    if str_eq(l, "chrome") || str_eq(l, "google-chrome") {
        Some(
            by_os(
                os,
                "/Applications/Google Chrome.app/Contents/MacOS/Google Chrome",
                "chrome.exe",
                "google-chrome",
            ),
        )
    } else if str_eq(l, "firefox") {
        Some(
            by_os(
                os,
                "/Applications/Firefox.app/Contents/MacOS/firefox",
                "firefox.exe",
                "firefox",
            ),
        )
    } else if str_eq(l, "safari") {
        if str_eq(os, "macos") {
            Some(owned("/Applications/Safari.app/Contents/MacOS/Safari"))
        } else {
            None
        }
    } else if str_eq(l, "edge") || str_eq(l, "microsoft-edge") {
        Some(
            by_os(
                os,
                "/Applications/Microsoft Edge.app/Contents/MacOS/Microsoft Edge",
                "msedge.exe",
                "microsoft-edge",
            ),
        )
    } else {
        Some(owned(browser))
    }
}

proof fn lemma_url_skips_uncaptured(patterns: Seq<Seq<char>>, text: Seq<char>, k: int)
    requires
        0 <= k <= patterns.len(),
        forall|j: int| 0 <= j < k ==> !(#[trigger] regex_first_group(patterns[j], text) matches Some(Some(_))),
    ensures
        url_from_patterns(patterns, text, 0) == url_from_patterns(patterns, text, k),
    decreases k,
{
    if k > 0 {
        lemma_url_skips_uncaptured(patterns, text, k - 1);
        assert(!(regex_first_group(patterns[k - 1], text) matches Some(Some(_))));
    }
}

/// The server address is what the first of these patterns, in this order,
/// captures: "serving at", "listening on", "server running on", "available
/// at" (any case), Leptos' "Listening on", then a local address with a
/// port. An address without asterisks comes back as captured. Which texts a
/// pattern captures is the `regex` crate's to say.
pub proof fn lemma_server_url_first_capture(text: Seq<char>, k: int, u: Seq<char>)
    requires
        0 <= k < 6,
        ({
            let listed = seq![
                "(?i)serving\\s+at\\s+(https?://[^\\s]+)"@,
                "(?i)listening\\s+on\\s+(https?://[^\\s]+)"@,
                "(?i)server\\s+running\\s+on\\s+(https?://[^\\s]+)"@,
                "(?i)available\\s+at\\s+(https?://[^\\s]+)"@,
                "(?i)Listening\\s+on\\s+(https?://[^\\s]+)"@,
                "(https?://(?:localhost|127\\.0\\.0\\.1|\\*+):[0-9]+)"@,
            ];
            &&& regex_first_group(listed[k], text) == Some(Some(u))
            &&& forall|j: int| 0 <= j < k ==> !(#[trigger] regex_first_group(listed[j], text) matches Some(Some(_)))
        }),
    ensures
        url_from_patterns(server_patterns(), text, 0) == Some(fix_url(u)),
        !u.contains('*') ==> fix_url(u) == u,
{
    let ps = server_patterns();
    lemma_url_skips_uncaptured(ps, text, k);
}

} // verus!
