use vstd::prelude::*;
use vstd::string::StrSliceExecFns;
use vstd::string::StringExecFns;

verus! {

/// Which case a line is folded to.
#[derive(Debug, Clone, Copy, PartialEq, Eq, Structural)]
pub enum Case {
    Upper,
    Lower,
}

/// The options a command line selects: an optional case folding, optional
/// input and output paths, and whether each line is reversed.
#[derive(Debug)]
pub struct Opts {
    pub case: Option<Case>,
    pub output_path: Option<String>,
    pub input_path: Option<String>,
    pub reverse: bool,
}

/// The mathematical content of an `Opts` value: the paths as character
/// sequences.
#[verifier::ext_equal]
pub struct OptsView {
    pub case: Option<Case>,
    pub output_path: Option<Seq<char>>,
    pub input_path: Option<Seq<char>>,
    pub reverse: bool,
}

impl View for Opts {
    type V = OptsView;

    open spec fn view(&self) -> OptsView {
        OptsView {
            case: self.case,
            output_path: self.output_path.deep_view(),
            input_path: self.input_path.deep_view(),
            reverse: self.reverse,
        }
    }
}

/// No options selected: the state parsing starts from.
pub open spec fn opts_none() -> OptsView {
    OptsView { case: None, output_path: None, input_path: None, reverse: false }
}

/// What parsing the arguments from position `i` onward does to the options
/// gathered so far: `--upper`, `--lower` and `--reverse` set their option;
/// `--output` takes the following argument as the output path (or clears it
/// when none follows); an argument not beginning with `-` becomes the input
/// path; anything else is ignored. A later argument wins over an earlier one.
pub open spec fn parse_from(args: Seq<String>, i: int, acc: OptsView) -> OptsView
    decreases args.len() - i,
{
    if i < 0 || i >= args.len() {
        acc
    } else {
        let a = args[i]@;
        if a == "--upper"@ {
            parse_from(args, i + 1, OptsView { case: Some(Case::Upper), ..acc })
        } else if a == "--lower"@ {
            parse_from(args, i + 1, OptsView { case: Some(Case::Lower), ..acc })
        } else if a == "--reverse"@ {
            parse_from(args, i + 1, OptsView { reverse: true, ..acc })
        } else if a == "--output"@ {
            if i + 1 < args.len() {
                parse_from(args, i + 2, OptsView { output_path: Some(args[i + 1]@), ..acc })
            } else {
                OptsView { output_path: None, ..acc }
            }
        } else if !(a.len() > 0 && a[0] == '-') {
            parse_from(args, i + 1, OptsView { input_path: Some(a), ..acc })
        } else {
            parse_from(args, i + 1, acc)
        }
    }
}

/// What a whole argument list parses to.
pub open spec fn parse_spec(args: Seq<String>) -> OptsView {
    parse_from(args, 0, opts_none())
}

/// Whether `a` reads exactly as `lit`.
fn arg_is(a: &String, lit: &str) -> (r: bool)
    ensures
        r == (a@ == lit@),
{
    let l: String = lit.to_owned();
    a.eq(&l)
}

/// Whether `a` begins with a `-`.
fn starts_with_dash(a: &String) -> (r: bool)
    ensures
        r == (a@.len() > 0 && a@[0] == '-'),
{
    let s: &str = a.as_str();
    if s.unicode_len() == 0 {
        false
    } else {
        s.get_char(0) == '-'
    }
}

impl Opts {
    /// Parse a command line, as `parse_spec` states.
    pub fn parse(args: &[String]) -> (r: Opts)
        ensures
            r@ == parse_spec(args@),
    {
        let mut opts = Opts { case: None, output_path: None, input_path: None, reverse: false };
        let mut i: usize = 0;
        while i < args.len()
            invariant
                i <= args.len(),
                parse_from(args@, i as int, opts@) == parse_spec(args@),
            decreases args.len() - i,
        {
            if arg_is(&args[i], "--upper") {
                opts.case = Some(Case::Upper);
                i = i + 1;
            } else if arg_is(&args[i], "--lower") {
                opts.case = Some(Case::Lower);
                i = i + 1;
            } else if arg_is(&args[i], "--reverse") {
                opts.reverse = true;
                i = i + 1;
            } else if arg_is(&args[i], "--output") {
                if i + 1 < args.len() {
                    opts.output_path = Some(args[i + 1].clone());
                    i = i + 2;
                } else {
                    opts.output_path = None;
                    i = i + 1;
                }
            } else if !starts_with_dash(&args[i]) {
                opts.input_path = Some(args[i].clone());
                i = i + 1;
            } else {
                i = i + 1;
            }
        }
        opts
    }
}

/// The uppercase folding of a character sequence, as `str::to_uppercase`
/// computes it.
pub uninterp spec fn upper_of(s: Seq<char>) -> Seq<char>;

/// The lowercase folding of a character sequence, as `str::to_lowercase`
/// computes it.
pub uninterp spec fn lower_of(s: Seq<char>) -> Seq<char>;

/// Relies on str::to_uppercase: the Unicode uppercase mapping of the
/// characters, depending on the characters alone.
#[verifier::external_body]
fn to_upper(s: &str) -> (r: String)
    ensures
        r@ == upper_of(s@),
{
    s.to_uppercase()
}

/// Relies on str::to_lowercase: the Unicode lowercase mapping of the
/// characters, depending on the characters alone.
#[verifier::external_body]
fn to_lower(s: &str) -> (r: String)
    ensures
        r@ == lower_of(s@),
{
    s.to_lowercase()
}

/// The characters of `s` in reverse order.
pub fn reverse_line(s: &str) -> (r: String)
    ensures
        r@ == s@.reverse(),
{
    let n = s.unicode_len();
    let mut out = String::new();
    let mut i = n;
    while i > 0
        invariant
            i <= n,
            n == s@.len(),
            out@ == s@.subrange(i as int, n as int).reverse(),
        decreases i,
    {
        i = i - 1;
        let piece = s.substring_char(i, i + 1);
        out.append(piece);
        proof {
            assert(out@ =~= s@.subrange(i as int, n as int).reverse());
        }
    }
    proof {
        assert(s@.subrange(0, n as int) =~= s@);
    }
    out
}

/// What a line becomes: reversed first if asked, then folded to the selected
/// case.
pub open spec fn transform_spec(s: Seq<char>, reverse: bool, case: Option<Case>) -> Seq<char> {
    let base = if reverse {
        s.reverse()
    } else {
        s
    };
    match case {
        Some(Case::Upper) => upper_of(base),
        Some(Case::Lower) => lower_of(base),
        None => base,
    }
}

/// Transform one line as the options ask, as `transform_spec` states.
pub fn transform_line(line: &str, reverse: bool, case: Option<Case>) -> (r: String)
    ensures
        r@ == transform_spec(line@, reverse, case),
{
    let base: String = if reverse {
        reverse_line(line)
    } else {
        line.to_owned()
    };
    match case {
        Some(Case::Upper) => to_upper(base.as_str()),
        Some(Case::Lower) => to_lower(base.as_str()),
        None => base,
    }
}

} // verus!
