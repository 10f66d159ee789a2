//! The signing algorithms a token header may name.

use vstd::prelude::*;

use crate::text::same_text;

verus! {

/// The algorithms supported for signing/verifying JWTs
#[derive(Debug, PartialEq, Eq, Structural, Hash, Copy, Clone)]
pub enum Algorithm {
    HS256,
    HS384,
    HS512,
    ES256,
    ES384,
    RS256,
    RS384,
    RS512,
    PS256,
    PS384,
    PS512,
}

impl Default for Algorithm {
    fn default() -> (a: Self)
        ensures
            a == Algorithm::HS256,
    {
        Algorithm::HS256
    }
}

impl Algorithm {
    /// The name under which a header carries the algorithm.
    pub open spec fn spec_name(self) -> Seq<char> {
        match self {
            Algorithm::HS256 => "HS256"@,
            Algorithm::HS384 => "HS384"@,
            Algorithm::HS512 => "HS512"@,
            Algorithm::ES256 => "ES256"@,
            Algorithm::ES384 => "ES384"@,
            Algorithm::RS256 => "RS256"@,
            Algorithm::RS384 => "RS384"@,
            Algorithm::RS512 => "RS512"@,
            Algorithm::PS256 => "PS256"@,
            Algorithm::PS384 => "PS384"@,
            Algorithm::PS512 => "PS512"@,
        }
    }

    /// The algorithm that goes by the given name, if there is one.
    pub open spec fn spec_from_name(name: Seq<char>) -> Option<Algorithm> {
        if exists|a: Algorithm| #[trigger] a.spec_name() == name {
            Some(choose|a: Algorithm| #[trigger] a.spec_name() == name)
        } else {
            None
        }
    }

    /// The name under which a header carries the algorithm.
    pub fn name(self) -> (text: &'static str)
        ensures
            text@ == self.spec_name(),
    {
        match self {
            Algorithm::HS256 => "HS256",
            Algorithm::HS384 => "HS384",
            Algorithm::HS512 => "HS512",
            Algorithm::ES256 => "ES256",
            Algorithm::ES384 => "ES384",
            Algorithm::RS256 => "RS256",
            Algorithm::RS384 => "RS384",
            Algorithm::RS512 => "RS512",
            Algorithm::PS256 => "PS256",
            Algorithm::PS384 => "PS384",
            Algorithm::PS512 => "PS512",
        }
    }

    /// Looks an algorithm up by its name. The name is case-sensitive.
    pub fn from_name(name: &str) -> (found: Option<Algorithm>)
        ensures
            found == Algorithm::spec_from_name(name@),
            found matches Some(a) ==> a.spec_name() == name@,
            found is None ==> forall|a: Algorithm| #[trigger] a.spec_name() != name@,
    {
        proof {
            names_are_distinct();
        }
        let found = if same_text(name, "HS256") {
            Some(Algorithm::HS256)
        } else if same_text(name, "HS384") {
            Some(Algorithm::HS384)
        } else if same_text(name, "HS512") {
            Some(Algorithm::HS512)
        } else if same_text(name, "ES256") {
            Some(Algorithm::ES256)
        } else if same_text(name, "ES384") {
            Some(Algorithm::ES384)
        } else if same_text(name, "RS256") {
            Some(Algorithm::RS256)
        } else if same_text(name, "RS384") {
            Some(Algorithm::RS384)
        } else if same_text(name, "RS512") {
            Some(Algorithm::RS512)
        } else if same_text(name, "PS256") {
            Some(Algorithm::PS256)
        } else if same_text(name, "PS384") {
            Some(Algorithm::PS384)
        } else if same_text(name, "PS512") {
            Some(Algorithm::PS512)
        } else {
            None
        };
        proof {
            match found {
                Some(a) => {
                    assert(a.spec_name() == name@);
                },
                None => {
                    assert forall|a: Algorithm| #[trigger] a.spec_name() != name@ by {
                        match a {
                            Algorithm::HS256 => {},
                            Algorithm::HS384 => {},
                            Algorithm::HS512 => {},
                            Algorithm::ES256 => {},
                            Algorithm::ES384 => {},
                            Algorithm::RS256 => {},
                            Algorithm::RS384 => {},
                            Algorithm::RS512 => {},
                            Algorithm::PS256 => {},
                            Algorithm::PS384 => {},
                            Algorithm::PS512 => {},
                        }
                    }
                },
            }
        }
        found
    }
}

/// Each name is five characters long and spells its variant.
proof fn names_spelled()
    ensures
        forall|a: Algorithm| (#[trigger] a.spec_name()).len() == 5,
        forall|a: Algorithm|
            (#[trigger] a.spec_name())[0] == match a {
                Algorithm::HS256 | Algorithm::HS384 | Algorithm::HS512 => 'H',
                Algorithm::ES256 | Algorithm::ES384 => 'E',
                Algorithm::RS256 | Algorithm::RS384 | Algorithm::RS512 => 'R',
                Algorithm::PS256 | Algorithm::PS384 | Algorithm::PS512 => 'P',
            },
        forall|a: Algorithm|
            (#[trigger] a.spec_name())[2] == match a {
                Algorithm::HS256 | Algorithm::ES256 | Algorithm::RS256 | Algorithm::PS256 => '2',
                Algorithm::HS384 | Algorithm::ES384 | Algorithm::RS384 | Algorithm::PS384 => '3',
                Algorithm::HS512 | Algorithm::RS512 | Algorithm::PS512 => '5',
            },
{
    reveal_strlit("HS256");
    reveal_strlit("HS384");
    reveal_strlit("HS512");
    reveal_strlit("ES256");
    reveal_strlit("ES384");
    reveal_strlit("RS256");
    reveal_strlit("RS384");
    reveal_strlit("RS512");
    reveal_strlit("PS256");
    reveal_strlit("PS384");
    reveal_strlit("PS512");
}

/// No two algorithms share a name.
pub proof fn names_are_distinct()
    ensures
        forall|a: Algorithm, b: Algorithm|
            #[trigger] a.spec_name() == #[trigger] b.spec_name() ==> a == b,
{
    names_spelled();
    assert forall|a: Algorithm, b: Algorithm|
        #[trigger] a.spec_name() == #[trigger] b.spec_name() implies a == b by {
        assert(a.spec_name()[0] == b.spec_name()[0]);
        assert(a.spec_name()[2] == b.spec_name()[2]);
    }
}

/// Looking an algorithm up by its own name finds it again.
pub proof fn name_round_trip(a: Algorithm)
    ensures
        Algorithm::spec_from_name(a.spec_name()) == Some(a),
{
    names_are_distinct();
}

} // verus!
