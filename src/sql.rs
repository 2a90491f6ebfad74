use vstd::prelude::*;

verus! {

/// A value bound to a statement placeholder.
#[derive(Debug, Clone, PartialEq)]
pub enum SqlValue {
    Text(String),
    OptText(Option<String>),
    Int(i64),
    OptInt(Option<i32>),
    Id(u128),
    OptId(Option<u128>),
    TextList(Vec<String>),
    OptTextList(Option<Vec<String>>),
}

/// The mathematical value of a bound argument.
pub enum SqlArg {
    Text(Seq<char>),
    OptText(Option<Seq<char>>),
    Int(int),
    OptInt(Option<int>),
    Id(u128),
    OptId(Option<u128>),
    TextList(Seq<Seq<char>>),
    OptTextList(Option<Seq<Seq<char>>>),
}

pub open spec fn opt_text_view(o: Option<String>) -> Option<Seq<char>> {
    match o {
        Some(s) => Some(s@),
        None => None,
    }
}

pub open spec fn text_list_view(v: Seq<String>) -> Seq<Seq<char>> {
    v.map_values(|s: String| s@)
}

impl View for SqlValue {
    type V = SqlArg;

    open spec fn view(&self) -> SqlArg {
        match self {
            SqlValue::Text(s) => SqlArg::Text(s@),
            SqlValue::OptText(o) => SqlArg::OptText(opt_text_view(*o)),
            SqlValue::Int(i) => SqlArg::Int(*i as int),
            SqlValue::OptInt(o) => SqlArg::OptInt(
                match o {
                    Some(i) => Some(*i as int),
                    None => None,
                },
            ),
            SqlValue::Id(u) => SqlArg::Id(*u),
            SqlValue::OptId(o) => SqlArg::OptId(*o),
            SqlValue::TextList(v) => SqlArg::TextList(text_list_view(v@)),
            SqlValue::OptTextList(o) => SqlArg::OptTextList(
                match o {
                    Some(v) => Some(text_list_view(v@)),
                    None => None,
                },
            ),
        }
    }
}

/// A parameterized statement: its text holds `$n` placeholders only, and the
/// values travel separately in `args`, the n-th bound to `$n`.
#[derive(Debug, Clone, PartialEq)]
pub struct Statement {
    pub sql: String,
    pub args: Vec<SqlValue>,
}

impl Statement {
    pub open spec fn text(&self) -> Seq<char> {
        self.sql@
    }

    pub open spec fn bound(&self) -> Seq<SqlArg> {
        self.args@.map_values(|a: SqlValue| a@)
    }
}

pub open spec fn digit_char(d: nat) -> char {
    if d == 0 {
        '0'
    } else if d == 1 {
        '1'
    } else if d == 2 {
        '2'
    } else if d == 3 {
        '3'
    } else if d == 4 {
        '4'
    } else if d == 5 {
        '5'
    } else if d == 6 {
        '6'
    } else if d == 7 {
        '7'
    } else if d == 8 {
        '8'
    } else {
        '9'
    }
}

/// The decimal notation of `n`, without leading zeros.
pub open spec fn decimal(n: nat) -> Seq<char>
    decreases n,
{
    if n < 10 {
        seq![digit_char(n)]
    } else {
        decimal(n / 10).push(digit_char(n % 10))
    }
}

/// The placeholder that refers to the `n`-th bound argument.
pub open spec fn placeholder(n: nat) -> Seq<char> {
    seq!['$'] + decimal(n)
}

fn digit_str(d: u64) -> (r: &'static str)
    requires
        d < 10,
    ensures
        r@ == seq![digit_char(d as nat)],
{
    proof {
        reveal_strlit("0");
        reveal_strlit("1");
        reveal_strlit("2");
        reveal_strlit("3");
        reveal_strlit("4");
        reveal_strlit("5");
        reveal_strlit("6");
        reveal_strlit("7");
        reveal_strlit("8");
        reveal_strlit("9");
    }
    if d == 0 {
        "0"
    } else if d == 1 {
        "1"
    } else if d == 2 {
        "2"
    } else if d == 3 {
        "3"
    } else if d == 4 {
        "4"
    } else if d == 5 {
        "5"
    } else if d == 6 {
        "6"
    } else if d == 7 {
        "7"
    } else if d == 8 {
        "8"
    } else {
        "9"
    }
}

/// Writes `n` in decimal.
pub fn decimal_text(n: u64) -> (r: String)
    ensures
        r@ == decimal(n as nat),
    decreases n,
{
    if n < 10 {
        let r = String::from_str(digit_str(n));
        proof {
            assert(r@ =~= decimal(n as nat));
        }
        r
    } else {
        let mut r = decimal_text(n / 10);
        r.append(digit_str(n % 10));
        r
    }
}

} // verus!

verus! {

/// Copies an optional text.
pub fn copy_opt_text(o: &Option<String>) -> (r: Option<String>)
    ensures
        opt_text_view(r) == opt_text_view(*o),
{
    match o {
        Some(s) => Some(s.clone()),
        None => None,
    }
}

/// Copies a list of texts.
pub fn copy_texts(v: &Vec<String>) -> (r: Vec<String>)
    ensures
        text_list_view(r@) == text_list_view(v@),
{
    let mut r: Vec<String> = Vec::new();
    let mut i: usize = 0;
    while i < v.len()
        invariant
            i <= v@.len(),
            text_list_view(r@) == text_list_view(v@.subrange(0, i as int)),
        decreases v@.len() - i,
    {
        let ghost before = r@;
        let c = v[i].clone();
        r.push(c);
        proof {
            assert(r@ == before.push(c));
            assert(v@.subrange(0, i + 1) =~= v@.subrange(0, i as int).push(v@[i as int]));
            assert(text_list_view(r@) =~= text_list_view(before).push(c@));
            assert(text_list_view(v@.subrange(0, i + 1)) =~= text_list_view(
                v@.subrange(0, i as int),
            ).push(v@[i as int]@));
        }
        i = i + 1;
    }
    proof {
        assert(v@.subrange(0, v@.len() as int) =~= v@);
    }
    r
}

} // verus!
