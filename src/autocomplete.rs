use vstd::prelude::*;
use vstd::string::{StrSliceExecFns, StringExecFns};

verus! {

#[derive(Debug, Clone, Copy, PartialEq, Eq, Structural)]
pub enum SuggestionType {
    Command,
    File,
    Directory,
    Option,
    Variable,
}

#[derive(Debug, Clone)]
pub struct AutocompleteSuggestion {
    pub text: String,
    pub description: Option<String>,
    pub suggestion_type: SuggestionType,
}

impl View for AutocompleteSuggestion {
    type V = (Seq<char>, Option<Seq<char>>, SuggestionType);

    open spec fn view(&self) -> (Seq<char>, Option<Seq<char>>, SuggestionType) {
        (self.text@, match self.description {
            Some(d) => Some(d@),
            None => None,
        }, self.suggestion_type)
    }
}

pub open spec fn views(s: Seq<AutocompleteSuggestion>) -> Seq<(Seq<char>, Option<Seq<char>>, SuggestionType)> {
    s.map_values(|x: AutocompleteSuggestion| x@)
}

/// Unicode's White_Space property.
pub open spec fn white_space(c: char) -> bool {
    let u = c as u32;
    (0x9 <= u <= 0xD) || u == 0x20 || u == 0x85 || u == 0xA0 || u == 0x1680 || (0x2000 <= u <= 0x200A)
        || u == 0x2028 || u == 0x2029 || u == 0x202F || u == 0x205F || u == 0x3000
}

pub fn is_white_space(c: char) -> (r: bool)
    ensures
        r == white_space(c),
{
    let u = c as u32;
    (0x9 <= u && u <= 0xD) || u == 0x20 || u == 0x85 || u == 0xA0 || u == 0x1680 || (0x2000 <= u && u <= 0x200A)
        || u == 0x2028 || u == 0x2029 || u == 0x202F || u == 0x205F || u == 0x3000
}

/// Start of the word that ends at `pos`: scanning back over non-whitespace.
pub open spec fn word_start(s: Seq<char>, pos: int) -> int
    decreases pos,
{
    if pos <= 0 || white_space(s[pos - 1]) {
        if pos <= 0 { 0 } else { pos }
    } else {
        word_start(s, pos - 1)
    }
}

/// End of the word that starts at `pos`: scanning forward over non-whitespace.
pub open spec fn word_end(s: Seq<char>, pos: int) -> int
    decreases s.len() - pos,
{
    if pos >= s.len() || white_space(s[pos]) {
        pos
    } else {
        word_end(s, pos + 1)
    }
}

pub open spec fn cursor_clamp(s: Seq<char>, cursor: int) -> int {
    if cursor < s.len() { cursor } else { s.len() as int }
}

/// The token under the cursor and where it starts.
pub open spec fn word_at(s: Seq<char>, cursor: int) -> (Seq<char>, int) {
    let c = cursor_clamp(s, cursor);
    let st = word_start(s, c);
    (s.subrange(st, word_end(s, c)), st)
}

proof fn lemma_word_start_bounds(s: Seq<char>, pos: int)
    requires
        0 <= pos <= s.len(),
    ensures
        0 <= word_start(s, pos) <= pos,
    decreases pos,
{
    if pos > 0 && !white_space(s[pos - 1]) {
        lemma_word_start_bounds(s, pos - 1);
    }
}

proof fn lemma_word_end_bounds(s: Seq<char>, pos: int)
    requires
        0 <= pos <= s.len(),
    ensures
        pos <= word_end(s, pos) <= s.len(),
    decreases s.len() - pos,
{
    if pos < s.len() && !white_space(s[pos]) {
        lemma_word_end_bounds(s, pos + 1);
    }
}

/// The token under the cursor (the cursor is clamped to the input) and its
/// starting position, in characters.
pub fn get_word_at_cursor(input: &str, cursor_position: usize) -> (r: (String, usize))
    ensures
        (r.0@, r.1 as int) == word_at(input@, cursor_position as int),
{
    let n = input.unicode_len();
    let cursor = if cursor_position < n { cursor_position } else { n };
    let mut start = cursor;
    while start > 0 && !is_white_space(input.get_char(start - 1))
        invariant
            start <= cursor <= n == input@.len(),
            word_start(input@, start as int) == word_start(input@, cursor as int),
        decreases start,
    {
        start = start - 1;
    }
    let mut end = cursor;
    while end < n && !is_white_space(input.get_char(end))
        invariant
            cursor <= end <= n == input@.len(),
            word_end(input@, end as int) == word_end(input@, cursor as int),
        decreases n - end,
    {
        end = end + 1;
    }
    proof {
        lemma_word_start_bounds(input@, cursor as int);
        lemma_word_end_bounds(input@, cursor as int);
    }
    (String::from_str(input.substring_char(start, end)), start)
}

pub open spec fn is_prefix(p: Seq<char>, s: Seq<char>) -> bool {
    p.len() <= s.len() && s.subrange(0, p.len() as int) == p
}

pub fn starts_with(s: &str, p: &str) -> (r: bool)
    ensures
        r == is_prefix(p@, s@),
{
    let n = s.unicode_len();
    let m = p.unicode_len();
    if m > n {
        return false;
    }
    let mut i: usize = 0;
    while i < m
        invariant
            i <= m <= n,
            n == s@.len(),
            m == p@.len(),
            s@.subrange(0, i as int) == p@.subrange(0, i as int),
        decreases m - i,
    {
        if s.get_char(i) != p.get_char(i) {
            assert(s@.subrange(0, m as int)[i as int] != p@[i as int]);
            return false;
        }
        assert(s@.subrange(0, i as int + 1) =~= s@.subrange(0, i as int).push(s@[i as int]));
        assert(p@.subrange(0, i as int + 1) =~= p@.subrange(0, i as int).push(p@[i as int]));
        i = i + 1;
    }
    assert(p@.subrange(0, m as int) =~= p@);
    true
}

/// The entries of `catalog` whose text starts with `prefix`, as suggestions of kind `kind`.
pub open spec fn catalog_matches(
    catalog: Seq<(Seq<char>, Seq<char>)>,
    prefix: Seq<char>,
    kind: SuggestionType,
) -> Seq<(Seq<char>, Option<Seq<char>>, SuggestionType)>
    decreases catalog.len(),
{
    if catalog.len() == 0 {
        Seq::empty()
    } else {
        let rest = catalog_matches(catalog.drop_last(), prefix, kind);
        let e = catalog.last();
        if is_prefix(prefix, e.0) {
            rest.push((e.0, Some(e.1), kind))
        } else {
            rest
        }
    }
}

pub open spec fn pairs_view(c: Seq<(&str, &str)>) -> Seq<(Seq<char>, Seq<char>)> {
    c.map_values(|e: (&str, &str)| (e.0@, e.1@))
}

/// Appends to `out` the entries of `catalog` that start with `prefix`.
fn push_matches(out: &mut Vec<AutocompleteSuggestion>, catalog: &Vec<(&str, &str)>, prefix: &str, kind: SuggestionType)
    ensures
        views(final(out)@) == views(old(out)@) + catalog_matches(pairs_view(catalog@), prefix@, kind),
{
    let ghost base = views(out@);
    let mut i: usize = 0;
    while i < catalog.len()
        invariant
            i <= catalog@.len(),
            views(out@) == base + catalog_matches(pairs_view(catalog@.subrange(0, i as int)), prefix@, kind),
        decreases catalog@.len() - i,
    {
        let ghost sub = catalog@.subrange(0, i as int + 1);
        assert(pairs_view(sub).drop_last() =~= pairs_view(catalog@.subrange(0, i as int)));
        let (text, desc) = catalog[i];
        if starts_with(text, prefix) {
            let ghost prev = out@;
            out.push(AutocompleteSuggestion {
                text: String::from_str(text),
                description: Some(String::from_str(desc)),
                suggestion_type: kind,
            });
            assert(views(out@) =~= views(prev).push((text@, Some(desc@), kind)));
        }
        i = i + 1;
    }
    assert(catalog@.subrange(0, i as int) =~= catalog@);
}

pub open spec fn command_catalog() -> Seq<(Seq<char>, Seq<char>)> {
    seq![
        ("ls"@, "List directory contents"@),
        ("cd"@, "Change directory"@),
        ("pwd"@, "Print working directory"@),
        ("cat"@, "Display file contents"@),
        ("grep"@, "Search text patterns"@),
        ("find"@, "Find files and directories"@),
        ("chmod"@, "Change file permissions"@),
        ("chown"@, "Change file ownership"@),
        ("cp"@, "Copy files"@),
        ("mv"@, "Move/rename files"@),
        ("rm"@, "Remove files"@),
        ("mkdir"@, "Create directory"@),
        ("rmdir"@, "Remove directory"@),
        ("tar"@, "Archive files"@),
        ("gzip"@, "Compress files"@),
        ("ssh"@, "Secure shell"@),
        ("scp"@, "Secure copy"@),
        ("rsync"@, "Remote sync"@),
        ("ps"@, "List processes"@),
        ("top"@, "Display running processes"@),
        ("kill"@, "Terminate processes"@),
        ("nano"@, "Text editor"@),
        ("vim"@, "Vi text editor"@),
        ("emacs"@, "Emacs text editor"@),
    ]
}

pub open spec fn path_catalog() -> Seq<(Seq<char>, Seq<char>)> {
    seq![
        ("/home/"@, "User home directories"@),
        ("/etc/"@, "System configuration"@),
        ("/var/"@, "Variable data"@),
        ("/tmp/"@, "Temporary files"@),
        ("/usr/"@, "User programs"@),
        ("/opt/"@, "Optional software"@),
    ]
}

pub open spec fn option_catalog() -> Seq<(Seq<char>, Seq<char>)> {
    seq![
        ("-l"@, "Long format listing"@),
        ("-a"@, "Show all files including hidden"@),
        ("-h"@, "Human readable sizes"@),
        ("-r"@, "Recursive"@),
        ("-f"@, "Force operation"@),
        ("-v"@, "Verbose output"@),
        ("-i"@, "Interactive mode"@),
        ("-n"@, "Numeric output"@),
        ("--help"@, "Show help information"@),
        ("--version"@, "Show version information"@),
    ]
}

/// Well-known shell commands starting with `prefix`.
pub fn get_command_suggestions(prefix: &str) -> (r: Vec<AutocompleteSuggestion>)
    ensures
        views(r@) == catalog_matches(command_catalog(), prefix@, SuggestionType::Command),
{
    let catalog: Vec<(&str, &str)> = vec![
        ("ls", "List directory contents"),
        ("cd", "Change directory"),
        ("pwd", "Print working directory"),
        ("cat", "Display file contents"),
        ("grep", "Search text patterns"),
        ("find", "Find files and directories"),
        ("chmod", "Change file permissions"),
        ("chown", "Change file ownership"),
        ("cp", "Copy files"),
        ("mv", "Move/rename files"),
        ("rm", "Remove files"),
        ("mkdir", "Create directory"),
        ("rmdir", "Remove directory"),
        ("tar", "Archive files"),
        ("gzip", "Compress files"),
        ("ssh", "Secure shell"),
        ("scp", "Secure copy"),
        ("rsync", "Remote sync"),
        ("ps", "List processes"),
        ("top", "Display running processes"),
        ("kill", "Terminate processes"),
        ("nano", "Text editor"),
        ("vim", "Vi text editor"),
        ("emacs", "Emacs text editor"),
    ];
    assert(pairs_view(catalog@) =~= command_catalog());
    let mut out: Vec<AutocompleteSuggestion> = Vec::new();
    assert(views(out@) =~= Seq::empty());
    push_matches(&mut out, &catalog, prefix, SuggestionType::Command);
    assert(views(out@) =~= catalog_matches(command_catalog(), prefix@, SuggestionType::Command));
    out
}

/// Common flags starting with `prefix`.
pub fn get_option_suggestions(prefix: &str) -> (r: Vec<AutocompleteSuggestion>)
    ensures
        views(r@) == catalog_matches(option_catalog(), prefix@, SuggestionType::Option),
{
    let catalog: Vec<(&str, &str)> = vec![
        ("-l", "Long format listing"),
        ("-a", "Show all files including hidden"),
        ("-h", "Human readable sizes"),
        ("-r", "Recursive"),
        ("-f", "Force operation"),
        ("-v", "Verbose output"),
        ("-i", "Interactive mode"),
        ("-n", "Numeric output"),
        ("--help", "Show help information"),
        ("--version", "Show version information"),
    ];
    assert(pairs_view(catalog@) =~= option_catalog());
    let mut out: Vec<AutocompleteSuggestion> = Vec::new();
    assert(views(out@) =~= Seq::empty());
    push_matches(&mut out, &catalog, prefix, SuggestionType::Option);
    assert(views(out@) =~= catalog_matches(option_catalog(), prefix@, SuggestionType::Option));
    out
}

/// The relative entries offered for an empty or `.` token.
pub open spec fn relative_entries() -> Seq<(Seq<char>, Option<Seq<char>>, SuggestionType)> {
    seq![
        ("./"@, Some("Current directory"@), SuggestionType::Directory),
        ("../"@, Some("Parent directory"@), SuggestionType::Directory),
    ]
}

pub open spec fn path_suggestions(prefix: Seq<char>) -> Seq<(Seq<char>, Option<Seq<char>>, SuggestionType)> {
    let rel = if prefix.len() == 0 || prefix == "."@ { relative_entries() } else { Seq::empty() };
    let abs = if prefix.len() == 0 || (prefix.len() > 0 && prefix[0] == '/') {
        catalog_matches(path_catalog(), prefix, SuggestionType::Directory)
    } else {
        Seq::empty()
    };
    rel + abs
}

/// Directory suggestions for a path token: `./` and `../` for an empty or
/// `.` token, and top-level directories matching an empty or absolute token.
pub fn get_path_suggestions(prefix: &str) -> (r: Vec<AutocompleteSuggestion>)
    ensures
        views(r@) == path_suggestions(prefix@),
{
    let mut out: Vec<AutocompleteSuggestion> = Vec::new();
    let n = prefix.unicode_len();
    proof {
        reveal_strlit(".");
    }
    let is_dot = n == 1 && prefix.get_char(0) == '.';
    assert(is_dot <==> prefix@ == "."@) by {
        if n == 1 && prefix@[0] == '.' {
            assert(prefix@ =~= "."@);
        }
    }
    if n == 0 || is_dot {
        out.push(AutocompleteSuggestion {
            text: String::from_str("./"),
            description: Some(String::from_str("Current directory")),
            suggestion_type: SuggestionType::Directory,
        });
        out.push(AutocompleteSuggestion {
            text: String::from_str("../"),
            description: Some(String::from_str("Parent directory")),
            suggestion_type: SuggestionType::Directory,
        });
        assert(views(out@) =~= relative_entries());
    } else {
        assert(views(out@) =~= Seq::empty());
    }
    let ghost rel = views(out@);
    if n == 0 || prefix.get_char(0) == '/' {
        let catalog: Vec<(&str, &str)> = vec![
            ("/home/", "User home directories"),
            ("/etc/", "System configuration"),
            ("/var/", "Variable data"),
            ("/tmp/", "Temporary files"),
            ("/usr/", "User programs"),
            ("/opt/", "Optional software"),
        ];
        assert(pairs_view(catalog@) =~= path_catalog());
        push_matches(&mut out, &catalog, prefix, SuggestionType::Directory);
    } else {
        assert(views(out@) =~= rel + Seq::empty());
    }
    out
}

/// The suggestions for a token starting at `word_start` of `input`:
/// commands when the token starts a word, directories when it looks like a
/// path, flags when it starts with `-`, in that order.
pub open spec fn suggestions_for(input: Seq<char>, word: Seq<char>, start: int) -> Seq<(Seq<char>, Option<Seq<char>>, SuggestionType)> {
    let commands = if start == 0 || white_space(input[start - 1]) {
        catalog_matches(command_catalog(), word, SuggestionType::Command)
    } else {
        Seq::empty()
    };
    let paths = if word.contains('/') || (word.len() > 0 && (word[0] == '.' || word[0] == '~')) {
        path_suggestions(word)
    } else {
        Seq::empty()
    };
    let options = if word.len() > 0 && word[0] == '-' {
        catalog_matches(option_catalog(), word, SuggestionType::Option)
    } else {
        Seq::empty()
    };
    commands + paths + options
}

fn contains_char(s: &str, c: char) -> (r: bool)
    ensures
        r == s@.contains(c),
{
    let n = s.unicode_len();
    let mut i: usize = 0;
    while i < n
        invariant
            i <= n == s@.len(),
            forall|j: int| 0 <= j < i ==> s@[j] != c,
        decreases n - i,
    {
        if s.get_char(i) == c {
            return true;
        }
        i = i + 1;
    }
    false
}

/// Suggestions for the token under the cursor.
pub fn generate_suggestions(input: &str, cursor_position: usize) -> (r: Vec<AutocompleteSuggestion>)
    ensures
        views(r@) == suggestions_for(input@, word_at(input@, cursor_position as int).0, word_at(input@, cursor_position as int).1),
{
    let (prefix, word_start) = get_word_at_cursor(input, cursor_position);
    proof {
        lemma_word_start_bounds(input@, cursor_clamp(input@, cursor_position as int));
    }
    let word: &str = prefix.as_str();
    let mut out: Vec<AutocompleteSuggestion> = Vec::new();
    if word_start == 0 || is_white_space(input.get_char(word_start - 1)) {
        out = get_command_suggestions(word);
    }
    let ghost commands = views(out@);
    let n = word.unicode_len();
    if contains_char(word, '/') || (n > 0 && (word.get_char(0) == '.' || word.get_char(0) == '~')) {
        let mut paths = get_path_suggestions(word);
        let ghost p = views(paths@);
        out.append(&mut paths);
        assert(views(out@) =~= commands + p);
    } else {
        assert(views(out@) =~= commands + Seq::empty());
    }
    let ghost cp = views(out@);
    if n > 0 && word.get_char(0) == '-' {
        let mut options = get_option_suggestions(word);
        let ghost o = views(options@);
        out.append(&mut options);
        assert(views(out@) =~= cp + o);
    } else {
        assert(views(out@) =~= cp + Seq::empty());
    }
    out
}

} // verus!
