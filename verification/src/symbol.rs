//! Names of variables.
use vstd::prelude::*;
use vstd::std_specs::cmp::PartialEqSpecImpl;
use vstd::std_specs::convert::TryFromSpecImpl;

verus! {

/// A symbol that may represent a variable or a function.
///
/// The name of a symbol is never empty.
#[derive(Debug)]
pub struct Symbol(String);

/// The message of the error that an empty name gives.
pub open spec fn empty_symbol_message() -> Seq<char> {
    "Symbol cannot be empty"@
}

impl View for Symbol {
    type V = Seq<char>;

    /// The name of the symbol.
    closed spec fn view(&self) -> Seq<char> {
        self.0@
    }
}

impl Symbol {
    #[verifier::type_invariant]
    spec fn named(&self) -> bool {
        self.0@.len() > 0
    }

    /// The name of the symbol as text.
    pub fn to_string(&self) -> (text: String)
        ensures
            text@ == self@,
            text@.len() > 0,
    {
        proof {
            use_type_invariant(self);
        }
        self.0.clone()
    }

    /// Appends the name of the symbol to `out`.
    pub fn fmt(&self, out: &mut String)
        ensures
            final(out)@ == old(out)@ + self@,
    {
        out.append(self.0.as_str());
    }
}

impl PartialEqSpecImpl for Symbol {
    open spec fn obeys_eq_spec() -> bool {
        true
    }

    /// Two symbols are equal where they have the same name.
    open spec fn eq_spec(&self, other: &Symbol) -> bool {
        self@ == other@
    }
}

impl PartialEq for Symbol {
    fn eq(&self, other: &Symbol) -> (equal: bool) {
        self.0 == other.0
    }
}

impl Clone for Symbol {
    fn clone(&self) -> (copy: Self)
        ensures
            copy == *self,
    {
        proof {
            use_type_invariant(self);
        }
        Symbol(self.0.clone())
    }
}

impl TryFromSpecImpl<&str> for Symbol {
    open spec fn obeys_try_from_spec() -> bool {
        false
    }

    open spec fn try_from_spec(v: &str) -> Result<Self, String> {
        arbitrary()
    }
}

impl TryFrom<&str> for Symbol {
    type Error = String;

    /// Makes a symbol of a name, and rejects the empty name.
    fn try_from(value: &str) -> (r: Result<Self, String>)
        ensures
            r is Err <==> value@.len() == 0,
            r is Ok ==> r->Ok_0@ == value@,
            r is Err ==> r->Err_0@ == empty_symbol_message(),
    {
        if value.is_empty() {
            return Err("Symbol cannot be empty".to_owned());
        }
        Ok(Symbol(value.to_owned()))
    }
}

impl TryFromSpecImpl<String> for Symbol {
    open spec fn obeys_try_from_spec() -> bool {
        false
    }

    open spec fn try_from_spec(v: String) -> Result<Self, String> {
        arbitrary()
    }
}

impl TryFrom<String> for Symbol {
    type Error = String;

    /// Makes a symbol of a name, and rejects the empty name.
    fn try_from(value: String) -> (r: Result<Self, String>)
        ensures
            r is Err <==> value@.len() == 0,
            r is Ok ==> r->Ok_0@ == value@,
            r is Err ==> r->Err_0@ == empty_symbol_message(),
    {
        if value.as_str().is_empty() {
            return Err("Symbol cannot be empty".to_owned());
        }
        Ok(Symbol(value))
    }
}

} // verus!
