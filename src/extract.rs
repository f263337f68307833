use vstd::prelude::*;
use vstd::string::*;

verus! {

/// A character that a regular expression reads as syntax rather than as
/// itself.
pub open spec fn is_meta(c: char) -> bool {
    c == '\\' || c == '.' || c == '+' || c == '*' || c == '?' || c == '(' || c == ')' || c == '|'
        || c == '[' || c == ']' || c == '{' || c == '}' || c == '^' || c == '$' || c == '#' || c
        == '&' || c == '-' || c == '~'
}

pub open spec fn escape_char(c: char) -> Seq<char> {
    if is_meta(c) {
        seq!['\\', c]
    } else {
        seq![c]
    }
}

/// A regular expression that matches exactly the given text.
pub open spec fn spec_escape(s: Seq<char>) -> Seq<char>
    decreases s.len(),
{
    if s.len() == 0 {
        Seq::empty()
    } else {
        spec_escape(s.drop_last()) + escape_char(s.last())
    }
}

fn is_meta_char(c: char) -> (r: bool)
    ensures
        r == is_meta(c),
{
    c == '\\' || c == '.' || c == '+' || c == '*' || c == '?' || c == '(' || c == ')' || c == '|'
        || c == '[' || c == ']' || c == '{' || c == '}' || c == '^' || c == '$' || c == '#' || c
        == '&' || c == '-' || c == '~'
}

/// Escapes every regular-expression metacharacter of `s` with a backslash.
pub fn escape_regex(s: &str) -> (r: String)
    ensures
        r@ == spec_escape(s@),
{
    let n = s.unicode_len();
    let mut r = String::new();
    let mut i: usize = 0;
    while i < n
        invariant
            n == s@.len(),
            i <= n,
            r@ == spec_escape(s@.subrange(0, i as int)),
        decreases n - i,
    {
        let c = s.get_char(i);
        proof {
            reveal_strlit("\\");
            assert(s@.subrange(0, i + 1).drop_last() =~= s@.subrange(0, i as int));
        }
        if is_meta_char(c) {
            r.append("\\");
        }
        r.append(s.substring_char(i, i + 1));
        proof {
            assert(s@.subrange(i as int, i + 1) =~= seq![c]);
        }
        i = i + 1;
    }
    proof {
        assert(s@.subrange(0, n as int) =~= s@);
    }
    r
}

/// A rule of an allow-list: a native name is surfaced when it matches.
#[derive(Clone, Debug, PartialEq, Eq)]
pub enum Pattern {
    /// Every name that starts with this text.
    Prefix(String),
    /// This name alone.
    Exact(String),
}

pub enum PatternModel {
    Prefix(Seq<char>),
    Exact(Seq<char>),
}

impl View for Pattern {
    type V = PatternModel;

    open spec fn view(&self) -> PatternModel {
        match self {
            Pattern::Prefix(p) => PatternModel::Prefix(p@),
            Pattern::Exact(e) => PatternModel::Exact(e@),
        }
    }
}

pub open spec fn pattern_models(ps: Seq<Pattern>) -> Seq<PatternModel> {
    ps.map_values(|p: Pattern| p@)
}

pub open spec fn string_views(ss: Seq<String>) -> Seq<Seq<char>> {
    ss.map_values(|s: String| s@)
}

/// Whether a pattern admits a native name.
pub open spec fn spec_matches(p: PatternModel, name: Seq<char>) -> bool {
    match p {
        PatternModel::Prefix(q) => q.len() <= name.len() && name.subrange(0, q.len() as int) == q,
        PatternModel::Exact(e) => name == e,
    }
}

/// Whether an allow-list admits a native name: some rule of it matches.
pub open spec fn spec_allows(ps: Seq<PatternModel>, name: Seq<char>) -> bool {
    exists|i: int| 0 <= i < ps.len() && spec_matches(#[trigger] ps[i], name)
}

/// The regular expression for a pattern, in the dialect of the declaration
/// extractor, which matches each expression against a whole name.
pub open spec fn spec_regex(p: PatternModel) -> Seq<char> {
    match p {
        PatternModel::Prefix(q) => spec_escape(q) + ".*"@,
        PatternModel::Exact(e) => spec_escape(e),
    }
}

impl Pattern {
    /// The regular expression that admits the same names as this pattern.
    pub fn to_regex(&self) -> (r: String)
        ensures
            r@ == spec_regex(self@),
    {
        match self {
            Pattern::Prefix(q) => {
                let mut r = escape_regex(q.as_str());
                r.append(".*");
                r
            },
            Pattern::Exact(e) => escape_regex(e.as_str()),
        }
    }
}

/// The regular expressions for a list of patterns, in the same order.
pub fn regexes(ps: &Vec<Pattern>) -> (r: Vec<String>)
    ensures
        r@.len() == ps@.len(),
        forall|i: int| 0 <= i < ps@.len() ==> (#[trigger] r@[i])@ == spec_regex(ps@[i]@),
{
    let mut r: Vec<String> = Vec::new();
    let mut i: usize = 0;
    while i < ps.len()
        invariant
            i <= ps@.len(),
            r@.len() == i,
            forall|j: int| 0 <= j < i ==> (#[trigger] r@[j])@ == spec_regex(ps@[j]@),
        decreases ps@.len() - i,
    {
        r.push(ps[i].to_regex());
        i = i + 1;
    }
    r
}

/// How the native public header is turned into declarations.
#[derive(Clone, Debug)]
pub struct ExtractorConfig {
    /// The native public header.
    pub header: String,
    /// Arguments for the header's parser: include paths and language mode.
    pub clang_args: Vec<String>,
    /// Which native functions are surfaced.
    pub functions: Vec<Pattern>,
    /// Which native types are surfaced.
    pub types: Vec<Pattern>,
    /// Which native constants are surfaced.
    pub vars: Vec<Pattern>,
    pub emit_functions: bool,
    pub emit_types: bool,
    pub emit_vars: bool,
    /// Whether layout tests are generated beside the declarations.
    pub layout_tests: bool,
    /// Whether interface types get their ordered table of function pointers.
    pub vtable_generation: bool,
    /// Whether trivially copyable aggregates are marked copyable.
    pub derive_copy: bool,
    /// Whether the output is run through the formatter.
    pub format_output: bool,
    /// The directory that holds the generated file.
    pub output_dir: String,
    /// The generated file.
    pub output_file: String,
}

/// The configuration for the Slang header.
pub fn slang_extractor_config() -> (r: ExtractorConfig)
    ensures
        r.header@ == "vendor/slang/include/slang.h"@,
        string_views(r.clang_args@) == seq!["-I./vendor/slang"@, "-xc++"@, "-std=c++17"@],
        pattern_models(r.functions@) == seq![PatternModel::Prefix("slang_"@)],
        pattern_models(r.types@) == seq![
            PatternModel::Prefix("slang"@),
            PatternModel::Exact("FileSystemContentsCallBack"@),
            PatternModel::Exact("PathKind"@),
        ],
        pattern_models(r.vars@) == seq![PatternModel::Prefix("SLANG_"@)],
        r.emit_functions && r.emit_types && r.emit_vars,
        !r.layout_tests,
        r.vtable_generation,
        r.derive_copy,
        r.format_output,
        r.output_dir@ == "gen"@,
        r.output_file@ == "gen/bindings.rs"@,
{
    let mut clang_args: Vec<String> = Vec::new();
    clang_args.push(String::from_str("-I./vendor/slang"));
    clang_args.push(String::from_str("-xc++"));
    clang_args.push(String::from_str("-std=c++17"));
    let mut functions: Vec<Pattern> = Vec::new();
    functions.push(Pattern::Prefix(String::from_str("slang_")));
    let mut types: Vec<Pattern> = Vec::new();
    types.push(Pattern::Prefix(String::from_str("slang")));
    types.push(Pattern::Exact(String::from_str("FileSystemContentsCallBack")));
    types.push(Pattern::Exact(String::from_str("PathKind")));
    let mut vars: Vec<Pattern> = Vec::new();
    vars.push(Pattern::Prefix(String::from_str("SLANG_")));
    assert(string_views(clang_args@) =~= seq!["-I./vendor/slang"@, "-xc++"@, "-std=c++17"@]);
    assert(pattern_models(functions@) =~= seq![PatternModel::Prefix("slang_"@)]);
    assert(pattern_models(types@) =~= seq![
        PatternModel::Prefix("slang"@),
        PatternModel::Exact("FileSystemContentsCallBack"@),
        PatternModel::Exact("PathKind"@),
    ]);
    assert(pattern_models(vars@) =~= seq![PatternModel::Prefix("SLANG_"@)]);
    ExtractorConfig {
        header: String::from_str("vendor/slang/include/slang.h"),
        clang_args,
        functions,
        types,
        vars,
        emit_functions: true,
        emit_types: true,
        emit_vars: true,
        layout_tests: false,
        vtable_generation: true,
        derive_copy: true,
        format_output: true,
        output_dir: String::from_str("gen"),
        output_file: String::from_str("gen/bindings.rs"),
    }
}

/// Text without metacharacters is its own regular expression.
pub proof fn lemma_escape_plain(s: Seq<char>)
    requires
        forall|i: int| 0 <= i < s.len() ==> !is_meta(#[trigger] s[i]),
    ensures
        spec_escape(s) == s,
    decreases s.len(),
{
    if s.len() > 0 {
        lemma_escape_plain(s.drop_last());
        assert(!is_meta(s[s.len() - 1]));
        assert(s.drop_last() + seq![s.last()] =~= s);
    }
}

/// An allow-list made only of the prefix `q` admits no name that lacks that
/// prefix; where `q` holds no metacharacter, its regular expression is `q`
/// followed by `.*`.
pub proof fn lemma_prefix_allow_list(q: Seq<char>, name: Seq<char>)
    ensures
        spec_allows(seq![PatternModel::Prefix(q)], name) ==> q.is_prefix_of(name),
        (forall|i: int| 0 <= i < q.len() ==> !is_meta(#[trigger] q[i])) ==> spec_regex(
            PatternModel::Prefix(q),
        ) == q + ".*"@,
{
    if forall|i: int| 0 <= i < q.len() ==> !is_meta(#[trigger] q[i]) {
        lemma_escape_plain(q);
    }
    if spec_allows(seq![PatternModel::Prefix(q)], name) {
        let i = choose|i: int|
            0 <= i < 1 && spec_matches(#[trigger] seq![PatternModel::Prefix(q)][i], name);
        assert(i == 0);
    }
}

} // verus!
