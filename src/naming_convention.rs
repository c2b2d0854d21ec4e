use vstd::prelude::*;
use crate::regex_support::{regex_compiles, regex_is_match, regex_finds, regex_valid};
use crate::text::str_equal;

verus! {

/// The regex and the display name that a convention keyword resolves to;
/// any other string is its own regex and its own display name.
pub open spec fn resolve_convention(p: Seq<char>) -> (Seq<char>, Seq<char>) {
    if p == "snake_case"@ || p == "snakecase"@ {
        ("^[a-z][a-z0-9_]*$"@, "snake_case"@)
    } else if p == "kebab_case"@ || p == "kebabcase"@ || p == "kebab-case"@ {
        ("^[a-z][a-z0-9-]*$"@, "kebab-case"@)
    } else if p == "camelCase"@ || p == "camel_case"@ || p == "camelcase"@ {
        ("^[a-z][a-zA-Z0-9]*$"@, "camelCase"@)
    } else if p == "pascal_case"@ || p == "pascalcase"@ || p == "pascal-case"@ || p == "PascalCase"@ {
        ("^[A-Z][a-zA-Z0-9]*$"@, "PascalCase"@)
    } else {
        (p, p)
    }
}

/// A pattern that did not compile.
#[derive(Debug, Clone, PartialEq, Eq)]
pub struct PatternError {
    pub pattern: String,
}

impl PatternError {
    /// A message that names the offending pattern.
    pub fn message(&self) -> (r: String)
        ensures
            r@ == "Invalid regex pattern '"@ + self.pattern@ + "'"@,
    {
        let mut m = String::from_str("Invalid regex pattern '");
        m.append(self.pattern.as_str());
        m.append("'");
        m
    }
}

/// A naming convention: a compiled, validated regex and the name it is shown by.
#[derive(Debug)]
pub struct NamingConvention {
    regex: String,
    convention_name: String,
}

fn resolve(pattern: &str) -> (r: (&str, &str))
    ensures
        (r.0@, r.1@) == resolve_convention(pattern@),
{
    if str_equal(pattern, "snake_case") || str_equal(pattern, "snakecase") {
        ("^[a-z][a-z0-9_]*$", "snake_case")
    } else if str_equal(pattern, "kebab_case") || str_equal(pattern, "kebabcase") || str_equal(
        pattern,
        "kebab-case",
    ) {
        ("^[a-z][a-z0-9-]*$", "kebab-case")
    } else if str_equal(pattern, "camelCase") || str_equal(pattern, "camel_case") || str_equal(
        pattern,
        "camelcase",
    ) {
        ("^[a-z][a-zA-Z0-9]*$", "camelCase")
    } else if str_equal(pattern, "pascal_case") || str_equal(pattern, "pascalcase") || str_equal(
        pattern,
        "pascal-case",
    ) || str_equal(pattern, "PascalCase") {
        ("^[A-Z][a-zA-Z0-9]*$", "PascalCase")
    } else {
        (pattern, pattern)
    }
}

impl NamingConvention {
    #[verifier::type_invariant]
    spec fn well_formed(&self) -> bool {
        regex_valid(self.regex@)
    }

    /// The regex source of the convention.
    pub closed spec fn regex_source(&self) -> Seq<char> {
        self.regex@
    }

    /// The display name of the convention.
    pub closed spec fn display_name(&self) -> Seq<char> {
        self.convention_name@
    }

    /// Resolves a keyword to its preset or takes the string as a regex, and
    /// compiles it; a pattern that does not compile is an error.
    pub fn from_pattern(pattern: &str) -> (r: Result<NamingConvention, PatternError>)
        ensures
            r is Ok <==> regex_valid(resolve_convention(pattern@).0),
            r matches Ok(c) ==> c.regex_source() == resolve_convention(pattern@).0
                && c.display_name() == resolve_convention(pattern@).1,
            r matches Err(e) ==> e.pattern@ == pattern@,
    {
        let (regex, name) = resolve(pattern);
        if regex_compiles(regex) {
            Ok(NamingConvention { regex: String::from_str(regex), convention_name: String::from_str(name) })
        } else {
            Err(PatternError { pattern: String::from_str(pattern) })
        }
    }

    /// Whether `name` follows the convention.
    pub fn is_match(&self, name: &str) -> (r: bool)
        ensures
            r == regex_finds(self.regex_source(), name@),
    {
        proof {
            use_type_invariant(self);
        }
        regex_is_match(self.regex.as_str(), name)
    }

    /// The display name of the convention.
    pub fn name(&self) -> (r: &str)
        ensures
            r@ == self.display_name(),
    {
        self.convention_name.as_str()
    }
}

} // verus!
