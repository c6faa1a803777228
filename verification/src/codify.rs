//! Rendering values as Rust initializer source text, for build-time code
//! generation: data loaded from resource tables is written back out as
//! the code that reconstructs it.

use vstd::prelude::*;
use vstd::string::StringExecFns;

verus! {

/// A value that can render itself as Rust initializer source text.
pub trait Codify {
    /// The initializer text this value renders to.
    spec fn spec_init_code(&self) -> Seq<char>;

    /// Renders the initializer text.
    fn init_code(&self) -> (r: String)
        ensures
            r@ == self.spec_init_code(),
    ;
}

impl Codify for String {
    /// A string renders as a quoted string literal.
    open spec fn spec_init_code(&self) -> Seq<char> {
        "\""@ + self@ + "\""@
    }

    fn init_code(&self) -> (r: String) {
        let mut out = String::from_str("\"");
        out.append(self.as_str());
        out.append("\"");
        out
    }
}

/// The rendered elements of a list, each followed by a comma and a line
/// break.
pub open spec fn spec_codify_list<T: Codify>(entries: Seq<T>) -> Seq<char>
    decreases entries.len(),
{
    if entries.len() == 0 {
        Seq::empty()
    } else {
        spec_codify_list(entries.drop_last()) + entries.last().spec_init_code() + ",\n"@
    }
}

impl<T: Codify> Codify for Vec<T> {
    /// A vector renders as a `vec!` of its elements' initializers.
    open spec fn spec_init_code(&self) -> Seq<char> {
        "vec!(\n"@ + spec_codify_list(self@) + ")"@
    }

    fn init_code(&self) -> (r: String) {
        let mut body = String::new();
        let mut i: usize = 0;
        while i < self.len()
            invariant
                i <= self@.len(),
                body@ == spec_codify_list(self@.take(i as int)),
            decreases self@.len() - i,
        {
            proof {
                assert(self@.take(i + 1).drop_last() =~= self@.take(i as int));
                assert(self@.take(i + 1).last() == self@[i as int]);
            }
            let piece = self[i].init_code();
            body.append(piece.as_str());
            body.append(",\n");
            i = i + 1;
        }
        proof {
            assert(self@.take(self@.len() as int) =~= self@);
        }
        let mut out = String::from_str("vec!(\n");
        out.append(body.as_str());
        out.append(")");
        out
    }
}

} // verus!
