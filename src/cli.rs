use crate::platform::FD_NULL;
use crate::process::ChefClientArgs;
use crate::text::opt_view;
use vstd::prelude::*;

verus! {

/// How one supervisor option was given on the command line.
#[derive(Debug)]
pub struct OptionChoice {
    /// The supervisor's name for the option.
    pub name: String,
    /// The client flag it becomes.
    pub flag: String,
    /// Its value, when it takes one and one was given or defaulted.
    pub value: Option<String>,
    /// How often it was given.
    pub occurrences: u64,
}

/// The client token for one option: the flag and its value; the bare flag
/// when given without a value; none when absent. The splay is dropped when
/// the run is immediate.
pub open spec fn option_token(c: OptionChoice, immediate: bool) -> Option<Seq<char>> {
    match c.value {
        Some(v) => if c.name@ == "splay"@ && immediate {
            None
        } else {
            Some(c.flag@ + " "@ + v@)
        },
        None => if c.occurrences > 0 {
            Some(c.flag@)
        } else {
            None
        },
    }
}

/// The client tokens of the options `cs`, in order.
pub open spec fn option_tokens(cs: Seq<OptionChoice>, immediate: bool) -> Seq<Seq<char>>
    decreases cs.len(),
{
    if cs.len() == 0 {
        Seq::empty()
    } else {
        let rest = option_tokens(cs.drop_last(), immediate);
        match option_token(cs.last(), immediate) {
            Some(t) => rest.push(t),
            None => rest,
        }
    }
}

/// The tokens that every run passes: no forking, the plain formatter, and
/// the client's own log sent to the null device.
pub open spec fn fixed_tokens() -> Seq<Seq<char>> {
    seq!["--no-fork"@, "--force-formatter"@, "-L "@ + FD_NULL@]
}

fn option_token_of(c: &OptionChoice, immediate: bool) -> (r: Option<String>)
    ensures
        opt_view(r) == option_token(*c, immediate),
{
    match &c.value {
        Some(v) => {
            let splay = String::from_str("splay");
            if c.name == splay && immediate {
                None
            } else {
                let mut t = c.flag.clone();
                t.append(" ");
                t.append(v.as_str());
                Some(t)
            }
        },
        None => {
            if c.occurrences > 0 {
                Some(c.flag.clone())
            } else {
                None
            }
        },
    }
}

/// The client's arguments for the options `choices`, followed by the fixed
/// tokens.
pub fn args_from_choices(choices: &Vec<OptionChoice>, immediate: bool) -> (r: ChefClientArgs)
    ensures
        r.tokens() == option_tokens(choices@, immediate) + fixed_tokens(),
{
    let mut opts = ChefClientArgs::new();
    let mut i: usize = 0;
    while i < choices.len()
        invariant
            i <= choices.len(),
            opts.tokens() == option_tokens(choices@.subrange(0, i as int), immediate),
        decreases choices.len() - i,
    {
        let token = option_token_of(&choices[i], immediate);
        proof {
            assert(choices@.subrange(0, i + 1).drop_last() =~= choices@.subrange(0, i as int));
        }
        match token {
            Some(t) => opts.insert(t.as_str()),
            None => {},
        }
        i = i + 1;
    }
    assert(choices@.subrange(0, choices.len() as int) =~= choices@);
    opts.insert("--no-fork");
    opts.insert("--force-formatter");
    let mut null_log = String::from_str("-L ");
    null_log.append(FD_NULL);
    opts.insert(null_log.as_str());
    assert(opts.tokens() =~= option_tokens(choices@, immediate) + fixed_tokens());
    opts
}

} // verus!
