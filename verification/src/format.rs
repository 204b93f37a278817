//! Storage formats and their canonical default file names.

use vstd::prelude::*;

verus! {

/// Indentation style used by the pretty-printed JSON format.
#[derive(Debug, Clone, PartialEq, Eq, Structural)]
pub enum PrettyJsonIndent {
    /// Indent each level with one tab character.
    Tab,
    /// Indent each level with the given number of space characters.
    Spaces(usize),
}

impl PrettyJsonIndent {
    /// The sequence of characters one indentation level is made of.
    pub open spec fn indent_seq(self) -> Seq<char> {
        match self {
            PrettyJsonIndent::Tab => seq!['\t'],
            PrettyJsonIndent::Spaces(n) => Seq::new(n as nat, |i: int| ' '),
        }
    }

    /// Returns one indentation level as a string: a tab, or `n` spaces.
    pub fn indent_string(&self) -> (r: String)
        ensures
            r@ == self.indent_seq(),
    {
        match self {
            PrettyJsonIndent::Tab => {
                let r = String::from_str("\t");
                proof {
                    reveal_strlit("\t");
                    assert(r@ =~= self.indent_seq());
                }
                r
            },
            PrettyJsonIndent::Spaces(n) => {
                let mut r = String::new();
                let mut i: usize = 0;
                while i < *n
                    invariant
                        i <= *n,
                        r@ == Seq::new(i as nat, |k: int| ' '),
                    decreases *n - i,
                {
                    r.append(" ");
                    proof {
                        reveal_strlit(" ");
                        assert(r@ =~= Seq::new((i + 1) as nat, |k: int| ' '));
                    }
                    i = i + 1;
                }
                proof {
                    assert(r@ =~= self.indent_seq());
                }
                r
            },
        }
    }
}

/// Storage format for app config.
#[derive(Debug, Clone, PartialEq, Eq, Structural)]
pub enum Format {
    /// JSON format using the serde_json crate.
    Json,
    /// JSON pretty-printed format using the serde_json crate.
    PrettyJson(PrettyJsonIndent),
    /// YAML format using the serde_yaml crate.
    Yaml,
    /// Pickle (Python) format using the serde-pickle crate.
    Pickle,
    /// INI (Windows) format using the serde_ini crate.
    Ini,
    /// TOML format using the toml crate.
    Toml,
}

impl Format {
    /// The canonical default file name for this format: lowercase
    /// `config.<tag>`. The pretty-printed JSON variant shares `config.json`
    /// with its base format.
    pub open spec fn default_name_seq(self) -> Seq<char> {
        match self {
            Format::Json => "config.json"@,
            Format::PrettyJson(_) => "config.json"@,
            Format::Yaml => "config.yaml"@,
            Format::Pickle => "config.pickle"@,
            Format::Ini => "config.ini"@,
            Format::Toml => "config.toml"@,
        }
    }

    /// Return default file name of config file for this format.
    pub fn default_name(&self) -> (r: String)
        ensures
            r@ == self.default_name_seq(),
    {
        match self {
            Format::Json => String::from_str("config.json"),
            Format::PrettyJson(_) => String::from_str("config.json"),
            Format::Yaml => String::from_str("config.yaml"),
            Format::Pickle => String::from_str("config.pickle"),
            Format::Ini => String::from_str("config.ini"),
            Format::Toml => String::from_str("config.toml"),
        }
    }
}

} // verus!
