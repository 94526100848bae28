use vstd::prelude::*;

verus! {

/// The environment the application runs in, which picks its configuration file.
#[derive(Clone, Copy, Debug, PartialEq, Eq, Structural)]
pub enum Environment {
    Local,
    Production,
}

pub open spec fn environment_name(e: Environment) -> Seq<char> {
    match e {
        Environment::Local => "local"@,
        Environment::Production => "production"@,
    }
}

impl Environment {
    /// The environment's name.
    pub fn as_str(&self) -> (r: &'static str)
        ensures
            r@ == environment_name(*self),
    {
        match self {
            Environment::Local => "local",
            Environment::Production => "production",
        }
    }

    /// Reads an environment from its name; any other name is refused.
    pub fn try_from(s: String) -> (r: Result<Environment, String>)
        ensures
            s@ == "local"@ <==> r == Ok::<Environment, String>(Environment::Local),
            s@ == "production"@ <==> r == Ok::<Environment, String>(Environment::Production),
            r matches Err(m) ==> m@ == s@ + " is not a valid environment"@,
    {
        proof {
            reveal_strlit("local");
            reveal_strlit("production");
            assert("local"@.len() != "production"@.len());
        }
        let local = String::from_str("local");
        let production = String::from_str("production");
        if s == local {
            Ok(Environment::Local)
        } else if s == production {
            Ok(Environment::Production)
        } else {
            let mut m = s;
            m.append(" is not a valid environment");
            Err(m)
        }
    }
}

} // verus!
