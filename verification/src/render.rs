//! Structural rendering of types and expressions as text, for diagnostics.

use vstd::prelude::*;
use vstd::string::StringExecFns;
use crate::expr::{AbsS, AnnS, AppS, ExpS, Expression, FamilyXi, LitS, VarS};
use crate::typ::Typ;

verus! {

/// A value that has a textual form. The annotations of a phase implement it
/// so that the expressions of that phase can be rendered.
pub trait Render {
    /// The text that stands for the value.
    spec fn rendered(&self) -> Seq<char>;

    /// Writes the value out as `rendered` says.
    fn render(&self) -> (s: String)
        ensures
            s@ == self.rendered(),
    ;
}

impl Render for () {
    open spec fn rendered(&self) -> Seq<char> {
        "()"@
    }

    fn render(&self) -> (s: String) {
        String::from_str("()")
    }
}

impl Render for Typ {
    /// `I` for the atomic type, `Fun(d, c)` for an arrow.
    open spec fn rendered(&self) -> Seq<char>
        decreases self,
    {
        match self {
            Typ::I => "I"@,
            Typ::Fun(d, c) => "Fun("@ + d.rendered() + ", "@ + c.rendered() + ")"@,
        }
    }

    fn render(&self) -> (s: String)
        decreases self,
    {
        match self {
            Typ::I => String::from_str("I"),
            Typ::Fun(d, c) => {
                let mut s = String::from_str("Fun(");
                let left = d.render();
                s.append(left.as_str());
                s.append(", ");
                let right = c.render();
                s.append(right.as_str());
                s.append(")");
                s
            },
        }
    }
}

/// The character of a decimal digit.
pub open spec fn digit(d: int) -> char {
    if d == 0 {
        '0'
    } else if d == 1 {
        '1'
    } else if d == 2 {
        '2'
    } else if d == 3 {
        '3'
    } else if d == 4 {
        '4'
    } else if d == 5 {
        '5'
    } else if d == 6 {
        '6'
    } else if d == 7 {
        '7'
    } else if d == 8 {
        '8'
    } else {
        '9'
    }
}

/// The decimal digits of a natural number, most significant first, without
/// leading zeros.
pub open spec fn digits(n: nat) -> Seq<char>
    decreases n,
{
    if n < 10 {
        seq![digit(n as int)]
    } else {
        digits(n / 10).push(digit((n % 10) as int))
    }
}

/// The decimal form of an integer: a minus sign for a negative number, then
/// the digits of its magnitude.
pub open spec fn decimal(n: int) -> Seq<char> {
    if n < 0 {
        seq!['-'] + digits((-n) as nat)
    } else {
        digits(n as nat)
    }
}

fn digit_str(d: u32) -> (r: &'static str)
    requires
        d < 10,
    ensures
        r@ == seq![digit(d as int)],
{
    proof {
        reveal_strlit("0");
        reveal_strlit("1");
        reveal_strlit("2");
        reveal_strlit("3");
        reveal_strlit("4");
        reveal_strlit("5");
        reveal_strlit("6");
        reveal_strlit("7");
        reveal_strlit("8");
        reveal_strlit("9");
    }
    let r = if d == 0 {
        "0"
    } else if d == 1 {
        "1"
    } else if d == 2 {
        "2"
    } else if d == 3 {
        "3"
    } else if d == 4 {
        "4"
    } else if d == 5 {
        "5"
    } else if d == 6 {
        "6"
    } else if d == 7 {
        "7"
    } else if d == 8 {
        "8"
    } else {
        "9"
    };
    assert(r@ =~= seq![digit(d as int)]);
    r
}

fn render_digits(n: u32) -> (s: String)
    ensures
        s@ == digits(n as nat),
    decreases n,
{
    if n < 10 {
        String::from_str(digit_str(n))
    } else {
        let mut s = render_digits(n / 10);
        s.append(digit_str(n % 10));
        assert(s@ =~= digits(n as nat));
        s
    }
}

/// Writes an integer in decimal.
pub fn render_int(n: i32) -> (s: String)
    ensures
        s@ == decimal(n as int),
{
    if n < 0 {
        let wide: i64 = n as i64;
        let magnitude: u32 = (-wide) as u32;
        let mut s = String::from_str("-");
        let tail = render_digits(magnitude);
        s.append(tail.as_str());
        proof {
            reveal_strlit("-");
            assert(s@ =~= decimal(n as int));
        }
        s
    } else {
        render_digits(n as u32)
    }
}

/// The text that std's debug formatting gives a string with these
/// characters: the string as a literal, between double quotes, with escapes
/// where std writes them.
pub uninterp spec fn debug_text(s: Seq<char>) -> Seq<char>;

/// Formats a name with std's `Debug` for `String`, as `format!("{:?}", ..)`
/// does. Nothing is proved of it. The contract claims one thing only: that
/// the text depends on the characters of the name alone, for which
/// `debug_text` is the name.
#[verifier::external_body]
fn quote_name(name: &String) -> (s: String)
    ensures
        s@ == debug_text(name@),
{
    format!("{:?}", name)
}

/// The text of a variable node, from the text of its annotation and the text
/// of its name.
pub open spec fn var_text(ann: Seq<char>, name: Seq<char>) -> Seq<char> {
    "Var { ξ: "@ + ann + ", x: "@ + name + " }"@
}

/// The text of an abstraction node, from the text of its annotation, of its
/// parameter's name and of its body.
pub open spec fn abs_text(ann: Seq<char>, name: Seq<char>, body: Seq<char>) -> Seq<char> {
    "Abs { ξ: "@ + ann + ", x: "@ + name + ", m: "@ + body + " }"@
}

/// Lays out a variable node around the texts of its parts.
pub fn render_var(ann: &str, name: &str) -> (s: String)
    ensures
        s@ == var_text(ann@, name@),
{
    let mut s = String::from_str("Var { ξ: ");
    s.append(ann);
    s.append(", x: ");
    s.append(name);
    s.append(" }");
    s
}

/// Lays out an abstraction node around the texts of its parts.
pub fn render_abs(ann: &str, name: &str, body: &str) -> (s: String)
    ensures
        s@ == abs_text(ann@, name@, body@),
{
    let mut s = String::from_str("Abs { ξ: ");
    s.append(ann);
    s.append(", x: ");
    s.append(name);
    s.append(", m: ");
    s.append(body);
    s.append(" }");
    s
}

impl<P> Expression<P> where
    LitS: FamilyXi<P>,
    VarS: FamilyXi<P>,
    AnnS: FamilyXi<P>,
    AbsS: FamilyXi<P>,
    AppS: FamilyXi<P>,
    ExpS: FamilyXi<P>,
    <LitS as FamilyXi<P>>::R: Render,
    <VarS as FamilyXi<P>>::R: Render,
    <AnnS as FamilyXi<P>>::R: Render,
    <AbsS as FamilyXi<P>>::R: Render,
    <AppS as FamilyXi<P>>::R: Render,
    <ExpS as FamilyXi<P>>::R: Render,
 {
    /// The text of an expression: the name of its node kind, then in braces
    /// its annotation and its parts in order, each under a label. A literal
    /// is written in decimal, a name as std's debug formatting writes a
    /// string.
    pub open spec fn rendered(self) -> Seq<char>
        decreases self,
    {
        match self {
            Expression::Lit(ann, n) => "Lit { ξ: "@ + ann.rendered() + ", n: "@ + decimal(
                n as int,
            ) + " }"@,
            Expression::Var(ann, x) => var_text(ann.rendered(), debug_text(x@)),
            Expression::Ann(ann, x, a) => "Ann { ξ: "@ + ann.rendered() + ", x: "@
                + x.rendered() + ", α: "@ + a.rendered() + " }"@,
            Expression::Abs(ann, x, m) => abs_text(
                ann.rendered(),
                debug_text(x@),
                m.rendered(),
            ),
            Expression::App(ann, f, x) => "App { ξ: "@ + ann.rendered() + ", f: "@
                + f.rendered() + ", x: "@ + x.rendered() + " }"@,
            Expression::Exp(ann) => "Exp { ξ: "@ + ann.rendered() + " }"@,
        }
    }

    /// Writes the expression out as `rendered` says.
    pub fn render(&self) -> (s: String)
        ensures
            s@ == self.rendered(),
        decreases self,
    {
        match self {
            Expression::Lit(ann, n) => {
                let mut s = String::from_str("Lit { ξ: ");
                s.append(ann.render().as_str());
                s.append(", n: ");
                s.append(render_int(*n).as_str());
                s.append(" }");
                s
            },
            Expression::Var(ann, x) => {
                let ann_text = ann.render();
                let name_text = quote_name(x);
                render_var(ann_text.as_str(), name_text.as_str())
            },
            Expression::Ann(ann, x, a) => {
                let mut s = String::from_str("Ann { ξ: ");
                s.append(ann.render().as_str());
                s.append(", x: ");
                s.append(x.render().as_str());
                s.append(", α: ");
                s.append(a.render().as_str());
                s.append(" }");
                s
            },
            Expression::Abs(ann, x, m) => {
                let ann_text = ann.render();
                let name_text = quote_name(x);
                let body_text = m.render();
                render_abs(ann_text.as_str(), name_text.as_str(), body_text.as_str())
            },
            Expression::App(ann, f, x) => {
                let mut s = String::from_str("App { ξ: ");
                s.append(ann.render().as_str());
                s.append(", f: ");
                s.append(f.render().as_str());
                s.append(", x: ");
                s.append(x.render().as_str());
                s.append(" }");
                s
            },
            Expression::Exp(ann) => {
                let mut s = String::from_str("Exp { ξ: ");
                s.append(ann.render().as_str());
                s.append(" }");
                s
            },
        }
    }
}

} // verus!
