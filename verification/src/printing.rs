//! Two record types rendered as text, first through inherent methods,
//! then behind a `Printable` capability trait, together with a blanket
//! `SarcasmDisplay` implementation that wraps any printable value in
//! decorative markup, and the newtype pattern that attaches the
//! capability to a container.

use vstd::prelude::*;

verus! {

/// The decimal digit character for a value below ten.
pub open spec fn digit_char(d: nat) -> char {
    if d == 0 {
        '0'
    } else if d == 1 {
        '1'
    } else if d == 2 {
        '2'
    } else if d == 3 {
        '3'
    } else if d == 4 {
        '4'
    } else if d == 5 {
        '5'
    } else if d == 6 {
        '6'
    } else if d == 7 {
        '7'
    } else if d == 8 {
        '8'
    } else {
        '9'
    }
}

/// The decimal digits of `n`, most significant first.
pub open spec fn dec_digits(n: nat) -> Seq<char>
    decreases n,
{
    if n < 10 {
        seq![digit_char(n)]
    } else {
        dec_digits(n / 10) + seq![digit_char(n % 10)]
    }
}

fn digit_str(d: u64) -> (r: &'static str)
    requires
        d < 10,
    ensures
        r@ == seq![digit_char(d as nat)],
{
    if d == 0 {
        proof {
            reveal_strlit("0");
            assert("0"@ =~= seq![digit_char(0)]);
        }
        "0"
    } else if d == 1 {
        proof {
            reveal_strlit("1");
            assert("1"@ =~= seq![digit_char(1)]);
        }
        "1"
    } else if d == 2 {
        proof {
            reveal_strlit("2");
            assert("2"@ =~= seq![digit_char(2)]);
        }
        "2"
    } else if d == 3 {
        proof {
            reveal_strlit("3");
            assert("3"@ =~= seq![digit_char(3)]);
        }
        "3"
    } else if d == 4 {
        proof {
            reveal_strlit("4");
            assert("4"@ =~= seq![digit_char(4)]);
        }
        "4"
    } else if d == 5 {
        proof {
            reveal_strlit("5");
            assert("5"@ =~= seq![digit_char(5)]);
        }
        "5"
    } else if d == 6 {
        proof {
            reveal_strlit("6");
            assert("6"@ =~= seq![digit_char(6)]);
        }
        "6"
    } else if d == 7 {
        proof {
            reveal_strlit("7");
            assert("7"@ =~= seq![digit_char(7)]);
        }
        "7"
    } else if d == 8 {
        proof {
            reveal_strlit("8");
            assert("8"@ =~= seq![digit_char(8)]);
        }
        "8"
    } else {
        proof {
            reveal_strlit("9");
            assert("9"@ =~= seq![digit_char(9)]);
        }
        "9"
    }
}

/// Renders a number in decimal, most significant digit first.
pub fn u64_to_string(n: u64) -> (r: String)
    ensures
        r@ == dec_digits(n as nat),
    decreases n,
{
    if n < 10 {
        String::from_str(digit_str(n))
    } else {
        let prefix = u64_to_string(n / 10);
        let r = prefix.concat(digit_str(n % 10));
        proof {
            assert(r@ =~= dec_digits(n as nat));
        }
        r
    }
}

/// A capability: a type that can render itself as a string, with a
/// specification-level account of exactly which string that is.
pub trait Printable {
    /// The text that `print` yields.
    spec fn spec_print(&self) -> Seq<char>;

    /// Renders the value as text.
    fn print(&self) -> (r: String)
        ensures
            r@ == self.spec_print(),
    ;
}

/// An empty request for the current time.
pub struct RequestTime {}

/// A reply carrying a time, counted in whole seconds.
pub struct TimeResponse {
    pub time_in_sec: u64,
}

impl RequestTime {
    /// Renders the request, fully manually.
    pub fn print(&self) -> (r: String)
        ensures
            r@ == "RequestTime()"@,
    {
        String::from_str("RequestTime()")
    }
}

impl TimeResponse {
    /// Renders the reply, fully manually.
    pub fn print(&self) -> (r: String)
        ensures
            r@ == "TimeResponse"@ + dec_digits(self.time_in_sec as nat),
    {
        let head = String::from_str("TimeResponse");
        let tail = u64_to_string(self.time_in_sec);
        head.concat(tail.as_str())
    }
}

impl Printable for RequestTime {
    open spec fn spec_print(&self) -> Seq<char> {
        "RequestTime()"@
    }

    fn print(&self) -> (r: String) {
        String::from_str("RequestTime()")
    }
}

impl Printable for TimeResponse {
    open spec fn spec_print(&self) -> Seq<char> {
        "TimeResponse"@ + dec_digits(self.time_in_sec as nat)
    }

    fn print(&self) -> (r: String) {
        let head = String::from_str("TimeResponse");
        let tail = u64_to_string(self.time_in_sec);
        head.concat(tail.as_str())
    }
}

/// One item of a heterogeneous list of printable values. A closed enum
/// over the crate's record types stands in for run-time dispatch.
pub enum PrintItem {
    Request(RequestTime),
    Response(TimeResponse),
}

impl Printable for PrintItem {
    open spec fn spec_print(&self) -> Seq<char> {
        match self {
            PrintItem::Request(req) => req.spec_print(),
            PrintItem::Response(res) => res.spec_print(),
        }
    }

    fn print(&self) -> (r: String) {
        match self {
            PrintItem::Request(req) => Printable::print(req),
            PrintItem::Response(res) => Printable::print(res),
        }
    }
}

/// Renders a mixed list holding one request and one reply at time zero,
/// each through the shared capability.
pub fn generic_print_list() -> (r: Vec<String>)
    ensures
        r@.len() == 2,
        r@[0]@ == "RequestTime()"@,
        r@[1]@ == "TimeResponse0"@,
{
    let items: Vec<PrintItem> = vec![
        PrintItem::Request(RequestTime {  }),
        PrintItem::Response(TimeResponse { time_in_sec: 0 }),
    ];
    let mut out: Vec<String> = Vec::new();
    let mut i: usize = 0;
    while i < items.len()
        invariant
            i <= items@.len(),
            out@.len() == i,
            forall|j: int| 0 <= j < i ==> out@[j]@ == items@[j].spec_print(),
        decreases items@.len() - i,
    {
        let line = items[i].print();
        out.push(line);
        i += 1;
    }
    proof {
        reveal_strlit("TimeResponse");
        reveal_strlit("TimeResponse0");
        assert(out@[1]@ =~= "TimeResponse0"@);
    }
    out
}

/// Renders any printable item; one of three equivalent spellings of the
/// same trait bound.
pub fn generic_printer_style_a(item: impl Printable) -> (r: String)
    ensures
        r@ == item.spec_print(),
{
    item.print()
}

/// Renders any printable item; the bound written on the type parameter.
pub fn generic_printer_style_b<T: Printable>(item: T) -> (r: String)
    ensures
        r@ == item.spec_print(),
{
    item.print()
}

/// Renders any printable item; the bound written in a `where` clause.
pub fn generic_printer_style_c<T>(item: T) -> (r: String) where T: Printable
    ensures
        r@ == item.spec_print(),
{
    item.print()
}

impl Printable for u64 {
    open spec fn spec_print(&self) -> Seq<char> {
        dec_digits(*self as nat)
    }

    fn print(&self) -> (r: String) {
        u64_to_string(*self)
    }
}

impl Printable for String {
    open spec fn spec_print(&self) -> Seq<char> {
        self@
    }

    fn print(&self) -> (r: String) {
        self.clone()
    }
}

/// A capability: a type whose rendering can be wrapped in decorative
/// markup.
pub trait SarcasmDisplay {
    /// The text that `sarcasm` yields.
    spec fn spec_sarcasm(&self) -> Seq<char>;

    /// Renders the value wrapped in markup.
    fn sarcasm(&self) -> (r: String)
        ensures
            r@ == self.spec_sarcasm(),
    ;
}

/// Every printable type gains the markup capability at once: a blanket
/// implementation over the `Printable` bound.
impl<T: Printable> SarcasmDisplay for T {
    open spec fn spec_sarcasm(&self) -> Seq<char> {
        "<sarcasm>"@ + self.spec_print() + "</sarcasm>"@
    }

    fn sarcasm(&self) -> (r: String) {
        let mut s = String::from_str("<sarcasm>");
        let body = self.print();
        s.append(body.as_str());
        s.append("</sarcasm>");
        s
    }
}

/// Wraps a string and a number in markup through the blanket
/// implementation.
pub fn use_sarcasm() -> (r: (String, String))
    ensures
        r.0@ == "<sarcasm>str?</sarcasm>"@,
        r.1@ == "<sarcasm>"@ + dec_digits(1010101) + "</sarcasm>"@,
{
    let a = String::from_str("str?").sarcasm();
    let n: u64 = 1010101;
    let b = n.sarcasm();
    proof {
        reveal_strlit("<sarcasm>");
        reveal_strlit("</sarcasm>");
        reveal_strlit("str?");
        reveal_strlit("<sarcasm>str?</sarcasm>");
        assert(a@ =~= "<sarcasm>str?</sarcasm>"@);
    }
    (a, b)
}

/// The renderings of a list of printable values, concatenated in order.
pub open spec fn concat_prints<T: Printable>(items: Seq<T>) -> Seq<char>
    decreases items.len(),
{
    if items.len() == 0 {
        Seq::empty()
    } else {
        concat_prints(items.drop_last()) + items.last().spec_print()
    }
}

/// A capability cannot be attached to a foreign container directly, so
/// the container is wrapped in a newtype of this crate's own.
pub struct MyVec<T>(pub Vec<T>);

impl<T: Printable> Printable for MyVec<T> {
    open spec fn spec_print(&self) -> Seq<char> {
        concat_prints(self.0@)
    }

    fn print(&self) -> (r: String) {
        let mut s = String::new();
        let mut i: usize = 0;
        while i < self.0.len()
            invariant
                i <= self.0@.len(),
                s@ == concat_prints(self.0@.take(i as int)),
            decreases self.0@.len() - i,
        {
            let line = self.0[i].print();
            s.append(line.as_str());
            proof {
                assert(self.0@.take((i + 1) as int).drop_last() =~= self.0@.take(i as int));
                assert(self.0@.take((i + 1) as int).last() == self.0@[i as int]);
            }
            i += 1;
        }
        proof {
            assert(self.0@.take(self.0@.len() as int) =~= self.0@);
        }
        s
    }
}

/// Wraps a whole list of greetings in markup at once, through the
/// newtype and the blanket implementation together.
pub fn print_vector_of_sarcasm() -> (r: String)
    ensures
        r@ == "<sarcasm>hello worldhello octopus</sarcasm>"@,
{
    let my_vec = MyVec(vec![String::from_str("hello world"), String::from_str("hello octopus")]);
    let r = my_vec.sarcasm();
    proof {
        reveal_strlit("<sarcasm>");
        reveal_strlit("</sarcasm>");
        reveal_strlit("hello world");
        reveal_strlit("hello octopus");
        reveal_strlit("<sarcasm>hello worldhello octopus</sarcasm>");
        reveal_with_fuel(concat_prints, 3);
        let items = my_vec.0@;
        assert(items.drop_last().drop_last() =~= Seq::<String>::empty());
        assert(items.drop_last().last() == items[0]);
        assert(concat_prints(items.drop_last()) =~= items[0]@);
        assert(concat_prints(items) =~= items[0]@ + items[1]@);
        assert(r@ =~= "<sarcasm>hello worldhello octopus</sarcasm>"@);
    }
    r
}

/// A record that leans on derived implementations of the everyday
/// capabilities instead of hand-written ones.
#[derive(Clone, Debug, Default, Hash, PartialEq, Eq, PartialOrd, Ord)]
pub struct ComplexStruct {
    pub string: String,
    pub number: u64,
}

} // verus!
