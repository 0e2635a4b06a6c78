//! Command-line arguments.

use crate::text::{chars_of, join, spells};
use vstd::prelude::*;

verus! {

/// An option given on the command line.
#[derive(Clone, Debug, PartialEq, Eq)]
pub enum OptionArg {
    /// `-v`, `--version`: print the version; no source file is needed then.
    Version,
    /// `--debug-print-token`: echo every consumed token.
    DebugPrintToken,
    /// `--debug-print-ast`: print the expression tree.
    DebugPrintAST,
    /// `--emit-llvm`: write textual intermediate representation.
    EmitLLVM,
    /// `-o`, `--output` and a path: where to write the artifact.
    Output(String),
    /// `-O0`, `--no-optimize`: mark the entry routine as not to be optimized.
    NoOptimize,
}

/// The options and the source file of one invocation.
#[derive(Clone, Debug, PartialEq, Eq)]
pub struct ArgContext {
    pub option_args: Vec<OptionArg>,
    pub file_name: Option<String>,
}

/// What an option is in contracts.
pub enum OptionKind {
    Version,
    DebugPrintToken,
    DebugPrintAST,
    EmitLLVM,
    Output(Seq<char>),
    NoOptimize,
}

impl View for OptionArg {
    type V = OptionKind;

    open spec fn view(&self) -> OptionKind {
        match self {
            OptionArg::Version => OptionKind::Version,
            OptionArg::DebugPrintToken => OptionKind::DebugPrintToken,
            OptionArg::DebugPrintAST => OptionKind::DebugPrintAST,
            OptionArg::EmitLLVM => OptionKind::EmitLLVM,
            OptionArg::Output(path) => OptionKind::Output(path@),
            OptionArg::NoOptimize => OptionKind::NoOptimize,
        }
    }
}

/// What the arguments of an invocation are in contracts.
pub struct Arguments {
    pub options: Seq<OptionKind>,
    pub file_name: Option<Seq<char>>,
}

impl View for ArgContext {
    type V = Arguments;

    open spec fn view(&self) -> Arguments {
        Arguments {
            options: self.option_args@.map_values(|option: OptionArg| option@),
            file_name: match self.file_name {
                Some(name) => Some(name@),
                None => None,
            },
        }
    }
}

/// The arguments read so far.
pub struct Reading {
    pub options: Seq<OptionKind>,
    pub file_name: Option<Seq<char>>,
    /// Whether a source file is still needed.
    pub need_file: bool,
}

/// The option that `arg` spells by itself, if it spells one.
pub open spec fn plain_option(arg: Seq<char>) -> Option<OptionKind> {
    if arg == "-v"@ || arg == "--version"@ {
        Some(OptionKind::Version)
    } else if arg == "--debug-print-token"@ {
        Some(OptionKind::DebugPrintToken)
    } else if arg == "--debug-print-ast"@ {
        Some(OptionKind::DebugPrintAST)
    } else if arg == "--emit-llvm"@ {
        Some(OptionKind::EmitLLVM)
    } else if arg == "-O0"@ || arg == "--no-optimize"@ {
        Some(OptionKind::NoOptimize)
    } else {
        None
    }
}

/// Whether `arg` asks for an output path, which is the argument behind it.
pub open spec fn is_output_option(arg: Seq<char>) -> bool {
    arg == "-o"@ || arg == "--output"@
}

/// Reads the arguments from index `i` on. An option is added to the
/// options; the output option takes the argument behind it as its path and
/// fails without one; any other argument that begins with `-` fails; any
/// other argument is the source file, the last one given.
pub open spec fn read_args(args: Seq<Seq<char>>, i: int, so_far: Reading) -> Result<
    Reading,
    Seq<char>,
>
    decreases args.len() - i,
{
    if i < 0 || i >= args.len() {
        Ok(so_far)
    } else {
        let arg = args[i];
        if is_output_option(arg) {
            if i + 1 == args.len() {
                Err("No output file specified"@)
            } else {
                read_args(
                    args,
                    i + 2,
                    Reading {
                        options: so_far.options.push(OptionKind::Output(args[i + 1])),
                        ..so_far
                    },
                )
            }
        } else {
            match plain_option(arg) {
                Some(option) => read_args(
                    args,
                    i + 1,
                    Reading {
                        options: so_far.options.push(option),
                        need_file: so_far.need_file && !(option is Version),
                        ..so_far
                    },
                ),
                None => if arg.len() > 0 && arg[0] == '-' {
                    Err("Invalid argument: "@ + arg)
                } else {
                    read_args(args, i + 1, Reading { file_name: Some(arg), ..so_far })
                },
            }
        }
    }
}

/// What the command line `args` asks for, or the message of the argument
/// error. Without the version option a source file must be given.
pub open spec fn parsed_args(args: Seq<Seq<char>>) -> Result<Arguments, Seq<char>> {
    match read_args(
        args,
        0,
        Reading { options: Seq::empty(), file_name: None, need_file: true },
    ) {
        Err(message) => Err(message),
        Ok(read) => if read.need_file && read.file_name is None {
            Err("No source file provided."@)
        } else {
            Ok(Arguments { options: read.options, file_name: read.file_name })
        },
    }
}

/// The path that names the artifact: the path of the last output option,
/// and the path of the source file where there is none. The extension of
/// the artifact replaces the extension of this path.
pub open spec fn chosen_output(options: Seq<OptionKind>, source_path: Seq<char>) -> Seq<char>
    decreases options.len(),
{
    if options.len() == 0 {
        source_path
    } else {
        match options.last() {
            OptionKind::Output(path) => path,
            _ => chosen_output(options.drop_last(), source_path),
        }
    }
}

/// The arguments of a command line as contracts see them.
pub open spec fn texts(args: Seq<String>) -> Seq<Seq<char>> {
    args.map_values(|arg: String| arg@)
}

impl ArgContext {
    /// Reads the arguments of a command line, the program's name left out.
    pub fn parse_args(args: &[String]) -> (outcome: Result<ArgContext, String>)
        ensures
            match outcome {
                Ok(context) => parsed_args(texts(args@)) == Ok::<Arguments, Seq<char>>(context@),
                Err(message) => parsed_args(texts(args@)) == Err::<Arguments, Seq<char>>(
                    message@,
                ),
            },
    {
        let mut file_name: Option<String> = None;
        let mut option_args: Vec<OptionArg> = Vec::new();
        let mut need_file = true;
        let ghost all = texts(args@);
        let ghost start = Reading { options: Seq::empty(), file_name: None, need_file: true };
        let mut i: usize = 0;
        assert(option_args@.map_values(|option: OptionArg| option@) =~= Seq::empty());
        while i < args.len()
            invariant
                i <= args.len(),
                all == texts(args@),
                start == (Reading { options: Seq::empty(), file_name: None, need_file: true }),
                read_args(
                    all,
                    i as int,
                    Reading {
                        options: option_args@.map_values(|option: OptionArg| option@),
                        file_name: match file_name {
                            Some(name) => Some(name@),
                            None => None,
                        },
                        need_file,
                    },
                ) == read_args(all, 0, start),
            decreases args.len() - i,
        {
            let arg = &args[i];
            let chars = chars_of(arg.as_str());
            let ghost options = option_args@.map_values(|option: OptionArg| option@);
            assert(all[i as int] == arg@);
            if spells(&chars, "-o") || spells(&chars, "--output") {
                if i + 1 == args.len() {
                    return Err("No output file specified".to_owned());
                }
                i += 1;
                let output = &args[i];
                assert(all[i as int] == output@);
                option_args.push(OptionArg::Output(output.clone()));
                assert(option_args@.map_values(|option: OptionArg| option@) =~= options.push(
                    OptionKind::Output(output@),
                ));
            } else {
                let plain = if spells(&chars, "-v") || spells(&chars, "--version") {
                    Some(OptionArg::Version)
                } else if spells(&chars, "--debug-print-token") {
                    Some(OptionArg::DebugPrintToken)
                } else if spells(&chars, "--debug-print-ast") {
                    Some(OptionArg::DebugPrintAST)
                } else if spells(&chars, "--emit-llvm") {
                    Some(OptionArg::EmitLLVM)
                } else if spells(&chars, "-O0") || spells(&chars, "--no-optimize") {
                    Some(OptionArg::NoOptimize)
                } else {
                    None
                };
                match plain {
                    Some(option) => {
                        if let OptionArg::Version = &option {
                            need_file = false;
                        }
                        option_args.push(option);
                        assert(option_args@.map_values(|option: OptionArg| option@)
                            =~= options.push(option@));
                    },
                    None => {
                        if chars.len() > 0 && chars[0] == '-' {
                            return Err(join("Invalid argument: ", arg.as_str()));
                        }
                        file_name = Some(arg.clone());
                    },
                }
            }
            i += 1;
        }
        if need_file && file_name.is_none() {
            Err("No source file provided.".to_owned())
        } else {
            Ok(ArgContext { option_args, file_name })
        }
    }

    /// The path that names the artifact of the source file at `source_path`.
    #[must_use]
    pub fn output_path(&self, source_path: &str) -> (path: String)
        ensures
            path@ == chosen_output(self@.options, source_path@),
    {
        let ghost options = self@.options;
        let mut path = source_path.to_owned();
        let mut i: usize = 0;
        assert(options.take(0) =~= Seq::empty());
        while i < self.option_args.len()
            invariant
                i <= self.option_args.len(),
                options == self@.options,
                path@ == chosen_output(options.take(i as int), source_path@),
            decreases self.option_args.len() - i,
        {
            assert(options.take(i + 1).drop_last() =~= options.take(i as int));
            assert(options.take(i + 1).last() == self.option_args@[i as int]@);
            if let OptionArg::Output(name) = &self.option_args[i] {
                path = name.clone();
            }
            i += 1;
        }
        assert(options.take(i as int) =~= options);
        path
    }
}

} // verus!
