use vstd::prelude::*;

verus! {

/// The file path that an argument vector carries: the argument at index 1,
/// when there is one. Later arguments are ignored.
pub open spec fn file_path_of(args: Seq<Seq<char>>) -> Option<Seq<char>> {
    if args.len() > 1 {
        Some(args[1])
    } else {
        None
    }
}

/// The views of a list of strings.
pub open spec fn views_of(args: Seq<String>) -> Seq<Seq<char>> {
    args.map_values(|s: String| s@)
}

/// What the shell keeps of its start-up arguments: an optional file path,
/// captured once and read-only afterwards.
#[derive(Debug)]
pub struct LaunchArgs {
    pub file_path: Option<String>,
}

impl View for LaunchArgs {
    type V = Option<Seq<char>>;

    open spec fn view(&self) -> Option<Seq<char>> {
        match self.file_path {
            Some(p) => Some(p@),
            None => None,
        }
    }
}

impl LaunchArgs {
    /// Captures the launch arguments from the process's argument vector
    /// (program name first). An empty or one-element vector is valid and
    /// carries no file path.
    pub fn from_args(args: &Vec<String>) -> (r: LaunchArgs)
        ensures
            r@ == file_path_of(views_of(args@)),
    {
        if args.len() > 1 {
            LaunchArgs { file_path: Some(args[1].clone()) }
        } else {
            LaunchArgs { file_path: None }
        }
    }

    /// Launch arguments that carry no file path.
    pub fn empty() -> (r: LaunchArgs)
        ensures
            r@ is None,
    {
        LaunchArgs { file_path: None }
    }

    /// The captured file path, if any.
    pub fn file_path(&self) -> (r: Option<&String>)
        ensures
            r is Some <==> self@ is Some,
            r is Some ==> Some(r->0@) == self@,
    {
        match &self.file_path {
            Some(p) => Some(p),
            None => None,
        }
    }
}

} // verus!
