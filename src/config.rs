//! The run's configuration and how its sources combine.
use vstd::prelude::*;
use crate::comments::entries_view;

verus! {

/// What a run stamps and where.
#[derive(Clone, Debug)]
pub struct Config {
    /// The name of the copyright owner.
    pub copyright: String,
    /// The chosen license, as an SPDX identifier.
    pub license: String,
    /// File extension (or bare file name) to comment prefix; the first entry
    /// for a key wins.
    pub comments: Vec<(String, String)>,
    /// Paths that match any of these regular expressions are skipped.
    pub ignore: Vec<String>,
}

/// The copyright stamped when nothing else is configured.
pub open spec fn default_copyright() -> Seq<char> {
    "Copyright Coinbase, Inc. All Rights Reserved."@
}

/// The license stamped when nothing else is configured.
pub open spec fn default_license() -> Seq<char> {
    "Apache-2.0"@
}

/// The built-in comment prefixes.
pub open spec fn default_comments() -> Seq<(Seq<char>, Seq<char>)> {
    seq![
        ("gitignore"@, "#"@),
        ("dockerignore"@, "#"@),
        ("sh"@, "#"@),
        ("py"@, "#"@),
        ("pl"@, "#"@),
        ("rb"@, "#"@),
        ("yml"@, "#"@),
        ("yaml"@, "#"@),
        ("go"@, "//"@),
        ("rs"@, "///"@),
    ]
}

/// The views of a list of strings.
pub open spec fn strings_view(v: Seq<String>) -> Seq<Seq<char>> {
    v.map_values(|s: String| s@)
}

fn entry(k: &str, p: &str) -> (r: (String, String))
    ensures
        r.0@ == k@,
        r.1@ == p@,
{
    (String::from_str(k), String::from_str(p))
}

impl Default for Config {
    fn default() -> (r: Self)
        ensures
            r.copyright@ == default_copyright(),
            r.license@ == default_license(),
            entries_view(r.comments@) == default_comments(),
            r.ignore@.len() == 0,
    {
        let comments = vec![
            entry("gitignore", "#"),
            entry("dockerignore", "#"),
            entry("sh", "#"),
            entry("py", "#"),
            entry("pl", "#"),
            entry("rb", "#"),
            entry("yml", "#"),
            entry("yaml", "#"),
            entry("go", "//"),
            entry("rs", "///"),
        ];
        assert(entries_view(comments@) =~= default_comments());
        Config {
            copyright: String::from_str("Copyright Coinbase, Inc. All Rights Reserved."),
            license: String::from_str("Apache-2.0"),
            comments,
            ignore: Vec::new(),
        }
    }
}

/// The command line of a run.
#[derive(Clone, Debug)]
pub struct Commands {
    /// Where the configuration file is looked for.
    pub config_file: String,
    /// Overrides the copyright owner.
    pub copyright: Option<String>,
    /// Replaces the ignore patterns.
    pub ignore: Option<Vec<String>>,
    /// Overrides the license.
    pub license: Option<String>,
    /// Where the walk starts; `.` stands for the current directory.
    pub starting_directory: String,
}

impl Commands {
    /// Whether the walk starts at the sentinel `.`, which the caller resolves
    /// to the absolute current directory.
    pub fn starts_at_current_dir(&self) -> (r: bool)
        ensures
            r == (self.starting_directory@ == seq!['.']),
    {
        let d = self.starting_directory.as_str();
        if d.unicode_len() != 1 {
            return false;
        }
        let r = d.get_char(0) == '.';
        proof {
            if r {
                assert(d@ =~= seq!['.']);
            }
        }
        r
    }
}

/// A string value after precedence: the command line's when given, else the
/// file's when the file is present and the value non-empty, else the default.
pub open spec fn pick_text(
    cli: Option<String>,
    file: Option<Seq<char>>,
    default: Seq<char>,
) -> Seq<char> {
    match cli {
        Some(s) => s@,
        None => match file {
            Some(f) if f.len() > 0 => f,
            _ => default,
        },
    }
}

/// The ignore patterns after precedence, in the same order as `pick_text`.
pub open spec fn pick_ignore(
    cli: Option<Vec<String>>,
    file: Option<Seq<Seq<char>>>,
) -> Seq<Seq<char>> {
    match cli {
        Some(v) => strings_view(v@),
        None => match file {
            Some(f) if f.len() > 0 => f,
            _ => Seq::empty(),
        },
    }
}

fn clone_strings(v: &Vec<String>) -> (r: Vec<String>)
    ensures
        strings_view(r@) == strings_view(v@),
{
    let mut r: Vec<String> = Vec::new();
    let mut i: usize = 0;
    while i < v.len()
        invariant
            i <= v@.len(),
            r@.len() == i,
            forall|j: int| 0 <= j < i ==> r@[j]@ == v@[j]@,
        decreases v@.len() - i,
    {
        r.push(v[i].clone());
        i = i + 1;
    }
    assert(strings_view(r@) =~= strings_view(v@));
    r
}

fn pick_string(cli: &Option<String>, file: Option<&String>, default: &str) -> (r: String)
    ensures
        r@ == pick_text(
            *cli,
            match file {
                Some(f) => Some(f@),
                None => None,
            },
            default@,
        ),
{
    match cli {
        Some(s) => s.clone(),
        None => match file {
            Some(f) => {
                if f.as_str().unicode_len() > 0 {
                    f.clone()
                } else {
                    String::from_str(default)
                }
            },
            None => String::from_str(default),
        },
    }
}

/// Combines the command line, the configuration file (when one was found)
/// and the built-in defaults. Copyright, license and ignore patterns come from
/// the command line when given there, else from the file when it sets them
/// non-empty, else from the defaults. The file's comment prefixes, when a file
/// is present, replace the built-in ones entirely.
pub fn read_config(cmd: &Commands, file: Option<Config>) -> (r: Config)
    ensures
        r.copyright@ == pick_text(
            cmd.copyright,
            match file {
                Some(f) => Some(f.copyright@),
                None => None,
            },
            default_copyright(),
        ),
        r.license@ == pick_text(
            cmd.license,
            match file {
                Some(f) => Some(f.license@),
                None => None,
            },
            default_license(),
        ),
        strings_view(r.ignore@) == pick_ignore(
            cmd.ignore,
            match file {
                Some(f) => Some(strings_view(f.ignore@)),
                None => None,
            },
        ),
        entries_view(r.comments@) == match file {
            Some(f) => entries_view(f.comments@),
            None => default_comments(),
        },
{
    let defaults = Config::default();
    let copyright = pick_string(
        &cmd.copyright,
        match &file {
            Some(f) => Some(&f.copyright),
            None => None,
        },
        defaults.copyright.as_str(),
    );
    let license = pick_string(
        &cmd.license,
        match &file {
            Some(f) => Some(&f.license),
            None => None,
        },
        defaults.license.as_str(),
    );
    let ignore = match &cmd.ignore {
        Some(v) => clone_strings(v),
        None => match &file {
            Some(f) => {
                if f.ignore.len() > 0 {
                    clone_strings(&f.ignore)
                } else {
                    Vec::new()
                }
            },
            None => Vec::new(),
        },
    };
    proof {
        assert(strings_view(Seq::<String>::empty()) =~= Seq::<Seq<char>>::empty());
    }
    let comments = match file {
        Some(f) => f.comments,
        None => defaults.comments,
    };
    Config { copyright, license, comments, ignore }
}

} // verus!
