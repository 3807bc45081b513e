//! Looking into a synced Edge Shard: which one, and with which query.
use vstd::prelude::*;
use vstd::string::*;

use crate::text::texts;

verus! {

/// A query to be run against an Edge Shard. The components are decimal numbers
/// as text.
#[derive(Debug)]
pub struct VerifyPlan {
    pub dir: String,
    pub vector_name: String,
    pub components: Vec<String>,
}

/// The argument at a place, or a default where there are too few.
pub open spec fn argument_or(args: Seq<Seq<char>>, at: int, default: Seq<char>) -> Seq<char> {
    if at < args.len() {
        args[at]
    } else {
        default
    }
}

/// The components of the query that is run when none is given.
pub open spec fn default_components() -> Seq<Seq<char>> {
    seq!["0.1"@, "0.2"@, "0.3"@, "0.4"@]
}

/// The words for a directory that is not there.
pub open spec fn missing_directory(dir: Seq<char>) -> Seq<char> {
    "'"@ + dir
        + "' doesn't exist yet — run the GUI sync first (or check you're pointing at the same directory it wrote to)."@
}

impl VerifyPlan {
    /// Makes a plan from the arguments of a command line: a directory, a vector
    /// name, and the components. What is left out has a default.
    pub fn from_args(args: &Vec<String>) -> (r: VerifyPlan)
        ensures
            r.dir@ == argument_or(texts(args@), 0, "./edge-shard"@),
            r.vector_name@ == argument_or(texts(args@), 1, "my-vector"@),
            texts(r.components@) == if args.len() > 2 {
                texts(args@).skip(2)
            } else {
                default_components()
            },
    {
        let dir = if args.len() > 0 {
            args[0].clone()
        } else {
            "./edge-shard".to_owned()
        };
        let vector_name = if args.len() > 1 {
            args[1].clone()
        } else {
            "my-vector".to_owned()
        };
        let mut components: Vec<String> = Vec::new();
        if args.len() > 2 {
            let mut i: usize = 2;
            while i < args.len()
                invariant
                    2 <= i <= args.len(),
                    components.len() == i - 2,
                    forall|k: int| 0 <= k < i - 2 ==> #[trigger] components@[k]@ == args@[k + 2]@,
                decreases args.len() - i,
            {
                components.push(args[i].clone());
                i = i + 1;
            }
            assert(texts(components@) =~= texts(args@).skip(2));
        } else {
            components.push("0.1".to_owned());
            components.push("0.2".to_owned());
            components.push("0.3".to_owned());
            components.push("0.4".to_owned());
            assert(texts(components@) =~= default_components());
        }
        VerifyPlan { dir, vector_name, components }
    }

    /// Words that the directory is not there.
    pub fn missing_directory_message(&self) -> (r: String)
        ensures
            r@ == missing_directory(self.dir@),
    {
        "'".to_owned().concat(self.dir.as_str()).concat(
            "' doesn't exist yet — run the GUI sync first (or check you're pointing at the same directory it wrote to).",
        )
    }
}

/// An argument that is given is taken as it is, and one that is not has its
/// default, however many arguments there are.
pub proof fn given_arguments_are_taken_as_they_are(
    args: Seq<Seq<char>>,
    at: int,
    default: Seq<char>,
)
    requires
        0 <= at,
    ensures
        at < args.len() ==> argument_or(args, at, default) == args[at],
        at >= args.len() ==> argument_or(args, at, default) == default,
        default_components().len() == 4,
        default_components()[0] == "0.1"@,
        default_components()[1] == "0.2"@,
        default_components()[2] == "0.3"@,
        default_components()[3] == "0.4"@,
{
}

/// The words for a directory that is not there name it as it is.
pub proof fn missing_directory_is_named(dir: Seq<char>)
    ensures
        missing_directory(dir) == "'"@ + dir
            + "' doesn't exist yet — run the GUI sync first (or check you're pointing at the same directory it wrote to)."@,
{
}

} // verus!
