use vstd::prelude::*;

verus! {

// The command line is handed in as a plain vector of argument strings
// (program name already removed) together with the default destination
// directory; interpreting them is pure logic and is verified against the
// recursive specification `parse_args_spec` below.

/// The run's settings, as read from the command line.
#[derive(Debug)]
pub struct Args {
    pub is_debug: bool,
    pub only_download_windows: bool,
    pub no_windows: bool,
    pub concurrent_request: u8,
    pub config_file: String,
    pub download_dir: String,
}

/// Mathematical image of `Args`: the strings as character sequences.
pub struct ArgsView {
    pub is_debug: bool,
    pub only_download_windows: bool,
    pub no_windows: bool,
    pub concurrent_request: u8,
    pub config_file: Seq<char>,
    pub download_dir: Seq<char>,
}

impl View for Args {
    type V = ArgsView;

    open spec fn view(&self) -> ArgsView {
        ArgsView {
            is_debug: self.is_debug,
            only_download_windows: self.only_download_windows,
            no_windows: self.no_windows,
            concurrent_request: self.concurrent_request,
            config_file: self.config_file@,
            download_dir: self.download_dir@,
        }
    }
}

/// Every way the command line can be refused; refusal is fatal at startup.
#[derive(Debug)]
pub enum ArgError {
    /// `-t` stood last, with no count after it.
    MissingThreadCount,
    /// The word after `-t` is not a decimal count up to 255; carries it.
    BadThreadCount(String),
    /// `-f` stood last, with no path after it.
    MissingConfigPath,
    /// `-D` stood last, with no path after it.
    MissingDownloadDir,
    /// A word no flag matches; carries it.
    UnknownFlag(String),
    /// `-f` never appeared, so no configuration file is named.
    MissingConfigFlag,
}

/// Mathematical image of `ArgError`.
pub enum ArgErrorView {
    MissingThreadCount,
    BadThreadCount(Seq<char>),
    MissingConfigPath,
    MissingDownloadDir,
    UnknownFlag(Seq<char>),
    MissingConfigFlag,
}

impl View for ArgError {
    type V = ArgErrorView;

    open spec fn view(&self) -> ArgErrorView {
        match self {
            ArgError::MissingThreadCount => ArgErrorView::MissingThreadCount,
            ArgError::BadThreadCount(s) => ArgErrorView::BadThreadCount(s@),
            ArgError::MissingConfigPath => ArgErrorView::MissingConfigPath,
            ArgError::MissingDownloadDir => ArgErrorView::MissingDownloadDir,
            ArgError::UnknownFlag(s) => ArgErrorView::UnknownFlag(s@),
            ArgError::MissingConfigFlag => ArgErrorView::MissingConfigFlag,
        }
    }
}

/// Whether `c` is a decimal digit.
pub open spec fn is_digit(c: char) -> bool {
    '0' <= c && c <= '9'
}

/// The value of the digit `c`.
pub open spec fn digit_val(c: char) -> int {
    c as int - '0' as int
}

/// Whether `s` consists of digits only.
pub open spec fn all_digits(s: Seq<char>) -> bool {
    forall|i: int| 0 <= i < s.len() ==> is_digit(s[i])
}

/// The number the digit string `s` writes in decimal.
pub open spec fn digits_val(s: Seq<char>) -> int
    decreases s.len(),
{
    if s.len() == 0 {
        0
    } else {
        digits_val(s.drop_last()) * 10 + digit_val(s.last())
    }
}

/// What parsing `s` as a count yields: its value, if `s` is a nonempty
/// digit string writing a number up to 255, and nothing otherwise.
pub open spec fn parse_u8_spec(s: Seq<char>) -> Option<u8> {
    if s.len() > 0 && all_digits(s) && digits_val(s) <= 255 {
        Some(digits_val(s) as u8)
    } else {
        None
    }
}

/// A digit string writes a number that is not negative.
pub proof fn lemma_digits_val_nonneg(s: Seq<char>)
    requires
        all_digits(s),
    ensures
        digits_val(s) >= 0,
    decreases s.len(),
{
    if s.len() > 0 {
        assert forall|j: int| 0 <= j < s.drop_last().len() implies is_digit(
            s.drop_last()[j],
        ) by {
            assert(s.drop_last()[j] == s[j]);
        }
        lemma_digits_val_nonneg(s.drop_last());
    }
}

/// Appending digits never shrinks the number a digit string writes.
pub proof fn lemma_digits_val_grows(s: Seq<char>, i: int)
    requires
        0 <= i <= s.len(),
        all_digits(s),
    ensures
        digits_val(s) >= digits_val(s.take(i)),
    decreases s.len() - i,
{
    if i < s.len() {
        assert forall|j: int| 0 <= j < s.take(i).len() implies is_digit(s.take(i)[j]) by {
            assert(s.take(i)[j] == s[j]);
        }
        lemma_digits_val_nonneg(s.take(i));
        assert(s.take(i + 1).drop_last() =~= s.take(i));
        assert(s.take(i + 1).last() == s[i]);
        assert(is_digit(s[i]));
        assert(digits_val(s.take(i + 1)) == digits_val(s.take(i)) * 10 + digit_val(s[i]));
        lemma_digits_val_grows(s, i + 1);
    } else {
        assert(s.take(i) =~= s);
    }
}

/// Parses a decimal count up to 255, exactly as `parse_u8_spec` says.
pub fn parse_u8(s: &str) -> (r: Option<u8>)
    ensures
        r == parse_u8_spec(s@),
{
    let n: usize = s.unicode_len();
    if n == 0 {
        return None;
    }
    let mut acc: u32 = 0;
    let mut i: usize = 0;
    while i < n
        invariant
            n == s@.len(),
            n > 0,
            i <= n,
            forall|j: int| 0 <= j < i ==> is_digit(s@[j]),
            acc as int == digits_val(s@.take(i as int)),
            acc <= 255,
        decreases n - i,
    {
        let c: char = s.get_char(i);
        if c < '0' || c > '9' {
            return None;
        }
        let d: u32 = c as u32 - '0' as u32;
        let next: u32 = acc * 10 + d;
        proof {
            assert(s@.take(i + 1).drop_last() =~= s@.take(i as int));
            assert(s@.take(i + 1).last() == s@[i as int]);
        }
        if next > 255 {
            proof {
                if all_digits(s@) {
                    lemma_digits_val_grows(s@, i + 1);
                }
            }
            return None;
        }
        acc = next;
        i = i + 1;
    }
    proof {
        assert(s@.take(n as int) =~= s@);
    }
    Some(acc as u8)
}

/// What interpreting the remaining words `rest` yields, given the settings
/// `acc` gathered so far and whether a configuration file was already
/// named.  Flags may repeat; a later occurrence overwrites an earlier one.
/// The first word no rule matches is refused, and a run that never names a
/// configuration file is refused at the end.
pub open spec fn parse_rest(rest: Seq<Seq<char>>, acc: ArgsView, config_seen: bool) -> Result<
    ArgsView,
    ArgErrorView,
>
    decreases rest.len(),
{
    if rest.len() == 0 {
        if config_seen {
            Ok(acc)
        } else {
            Err(ArgErrorView::MissingConfigFlag)
        }
    } else {
        let a = rest[0];
        if a == "-d"@ {
            parse_rest(rest.skip(1), ArgsView { is_debug: true, ..acc }, config_seen)
        } else if a == "--only-windows"@ {
            parse_rest(rest.skip(1), ArgsView { only_download_windows: true, ..acc }, config_seen)
        } else if a == "--no-windows"@ {
            parse_rest(rest.skip(1), ArgsView { no_windows: true, ..acc }, config_seen)
        } else if a == "-t"@ {
            if rest.len() == 1 {
                Err(ArgErrorView::MissingThreadCount)
            } else {
                match parse_u8_spec(rest[1]) {
                    Some(k) => parse_rest(
                        rest.skip(2),
                        ArgsView { concurrent_request: k, ..acc },
                        config_seen,
                    ),
                    None => Err(ArgErrorView::BadThreadCount(rest[1])),
                }
            }
        } else if a == "-f"@ {
            if rest.len() == 1 {
                Err(ArgErrorView::MissingConfigPath)
            } else {
                parse_rest(rest.skip(2), ArgsView { config_file: rest[1], ..acc }, true)
            }
        } else if a == "-D"@ {
            if rest.len() == 1 {
                Err(ArgErrorView::MissingDownloadDir)
            } else {
                parse_rest(rest.skip(2), ArgsView { download_dir: rest[1], ..acc }, config_seen)
            }
        } else {
            Err(ArgErrorView::UnknownFlag(a))
        }
    }
}

/// What interpreting a whole command line yields.  Debug logging starts
/// off, one download runs at a time, and the destination directory is
/// `default_dir`, until flags say otherwise.
pub open spec fn parse_args_spec(args: Seq<Seq<char>>, default_dir: Seq<char>) -> Result<
    ArgsView,
    ArgErrorView,
> {
    parse_rest(
        args,
        ArgsView {
            is_debug: false,
            only_download_windows: false,
            no_windows: false,
            concurrent_request: 1,
            config_file: Seq::empty(),
            download_dir: default_dir,
        },
        false,
    )
}

/// Whether the string `a` equals the literal `lit`.
fn str_is(a: &String, lit: &str) -> (r: bool)
    ensures
        r == (a@ == lit@),
{
    let l: String = lit.to_owned();
    *a == l
}

/// Interprets the command line `args` (program name already removed),
/// with `default_dir` as the destination directory used when `-D` does
/// not name one.  Returns exactly what `parse_args_spec` yields.
pub fn parse_args(args: &Vec<String>, default_dir: &str) -> (r: Result<Args, ArgError>)
    ensures
        match r {
            Ok(a) => parse_args_spec(args.deep_view(), default_dir@) == Ok::<
                ArgsView,
                ArgErrorView,
            >(a@),
            Err(e) => parse_args_spec(args.deep_view(), default_dir@) == Err::<
                ArgsView,
                ArgErrorView,
            >(e@),
        },
{
    let ghost all: Seq<Seq<char>> = args.deep_view();
    let mut is_debug: bool = false;
    let mut only_download_windows: bool = false;
    let mut no_windows: bool = false;
    let mut concurrent_request: u8 = 1;
    let mut config_file: Option<String> = None;
    let mut download_dir: String = default_dir.to_owned();
    let mut i: usize = 0;
    proof {
        assert(all.skip(0) =~= all);
    }
    while i < args.len()
        invariant
            all == args.deep_view(),
            i <= args.len(),
            all.len() == args.len(),
            parse_args_spec(all, default_dir@) == parse_rest(
                all.skip(i as int),
                (ArgsView {
                    is_debug: is_debug,
                    only_download_windows: only_download_windows,
                    no_windows: no_windows,
                    concurrent_request: concurrent_request,
                    config_file: (match config_file {
                        Some(c) => c@,
                        None => Seq::empty(),
                    }),
                    download_dir: download_dir@,
                }),
                config_file is Some,
            ),
        decreases args.len() - i,
    {
        let a: &String = &args[i];
        proof {
            assert(all.skip(i as int)[0] == all[i as int]);
            assert(all[i as int] == a@);
            assert(all.skip(i as int).skip(1) =~= all.skip(i + 1));
            assert(all.skip(i as int).len() == all.len() - i);
        }
        if str_is(a, "-d") {
            is_debug = true;
            i = i + 1;
        } else if str_is(a, "--only-windows") {
            only_download_windows = true;
            i = i + 1;
        } else if str_is(a, "--no-windows") {
            no_windows = true;
            i = i + 1;
        } else if str_is(a, "-t") {
            if i + 1 >= args.len() {
                return Err(ArgError::MissingThreadCount);
            }
            let v: &String = &args[i + 1];
            proof {
                assert(all.skip(i as int)[1] == all[i + 1]);
                assert(all[i + 1] == v@);
                assert(all.skip(i as int).skip(2) =~= all.skip(i + 2));
            }
            match parse_u8(v.as_str()) {
                Some(k) => {
                    concurrent_request = k;
                    i = i + 2;
                },
                None => {
                    return Err(ArgError::BadThreadCount(v.clone()));
                },
            }
        } else if str_is(a, "-f") {
            if i + 1 >= args.len() {
                return Err(ArgError::MissingConfigPath);
            }
            let v: &String = &args[i + 1];
            proof {
                assert(all.skip(i as int)[1] == all[i + 1]);
                assert(all[i + 1] == v@);
                assert(all.skip(i as int).skip(2) =~= all.skip(i + 2));
            }
            config_file = Some(v.clone());
            i = i + 2;
        } else if str_is(a, "-D") {
            if i + 1 >= args.len() {
                return Err(ArgError::MissingDownloadDir);
            }
            let v: &String = &args[i + 1];
            proof {
                assert(all.skip(i as int)[1] == all[i + 1]);
                assert(all[i + 1] == v@);
                assert(all.skip(i as int).skip(2) =~= all.skip(i + 2));
            }
            download_dir = v.clone();
            i = i + 2;
        } else {
            return Err(ArgError::UnknownFlag(a.clone()));
        }
    }
    proof {
        assert(all.skip(i as int) =~= Seq::<Seq<char>>::empty());
    }
    match config_file {
        Some(c) => Ok(
            Args {
                is_debug: is_debug,
                only_download_windows: only_download_windows,
                no_windows: no_windows,
                concurrent_request: concurrent_request,
                config_file: c,
                download_dir: download_dir,
            },
        ),
        None => Err(ArgError::MissingConfigFlag),
    }
}

} // verus!
