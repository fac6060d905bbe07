use vstd::prelude::*;

verus! {

/// The fixed set of atomic physical units. The time subdivisions are
/// distinct atoms: no conversion factor links them.
#[derive(Debug, Clone, Copy, PartialEq, Eq, Structural)]
pub enum NativeUnit {
    Meter,
    Liter,
    Gramm,
    Second,
    Minute,
    Hour,
    Day,
    Week,
    Year,
}

/// A unit expression: a tree whose composite nodes own their children.
#[derive(Debug)]
pub enum UnitKind {
    /// `numerator / denominator`
    Ratio(Box<UnitKind>, Box<UnitKind>),
    /// `left * right`, with no cancellation
    Product(Box<UnitKind>, Box<UnitKind>),
    /// `base ^ exponent`
    Power(Box<UnitKind>, usize),
    Native(NativeUnit),
    Custom(String),
    /// The dimensionless unit.
    Dimensionless,
}

/// The mathematical model of a unit expression: the same tree, with a custom
/// name as its characters and an exponent as a natural number.
pub enum UnitExpr {
    Ratio(Box<UnitExpr>, Box<UnitExpr>),
    Product(Box<UnitExpr>, Box<UnitExpr>),
    Power(Box<UnitExpr>, nat),
    Native(NativeUnit),
    Custom(Seq<char>),
    Dimensionless,
}

/// The model of a unit expression; structural equality of unit expressions
/// is equality of their models.
pub open spec fn model(u: UnitKind) -> UnitExpr
    decreases u,
{
    match u {
        UnitKind::Ratio(n, d) => UnitExpr::Ratio(Box::new(model(*n)), Box::new(model(*d))),
        UnitKind::Product(a, b) => UnitExpr::Product(Box::new(model(*a)), Box::new(model(*b))),
        UnitKind::Power(b, p) => UnitExpr::Power(Box::new(model(*b)), p as nat),
        UnitKind::Native(n) => UnitExpr::Native(n),
        UnitKind::Custom(s) => UnitExpr::Custom(s@),
        UnitKind::Dimensionless => UnitExpr::Dimensionless,
    }
}

impl View for UnitKind {
    type V = UnitExpr;

    open spec fn view(&self) -> UnitExpr {
        model(*self)
    }
}

impl UnitKind {
    /// Structural equality: same variant and recursively equal contents.
    pub fn equals(&self, other: &UnitKind) -> (r: bool)
        ensures
            r == (self@ == other@),
        decreases self,
    {
        match (self, other) {
            (UnitKind::Ratio(n1, d1), UnitKind::Ratio(n2, d2)) => {
                let a = n1.equals(n2);
                let b = d1.equals(d2);
                a && b
            },
            (UnitKind::Product(a1, b1), UnitKind::Product(a2, b2)) => {
                let a = a1.equals(a2);
                let b = b1.equals(b2);
                a && b
            },
            (UnitKind::Power(b1, p1), UnitKind::Power(b2, p2)) => {
                let a = b1.equals(b2);
                a && *p1 == *p2
            },
            (UnitKind::Native(n1), UnitKind::Native(n2)) => *n1 == *n2,
            (UnitKind::Custom(s1), UnitKind::Custom(s2)) => *s1 == *s2,
            (UnitKind::Dimensionless, UnitKind::Dimensionless) => true,
            _ => false,
        }
    }
}

impl Clone for UnitKind {
    fn clone(&self) -> (r: UnitKind)
        ensures
            r@ == self@,
        decreases self,
    {
        match self {
            UnitKind::Ratio(n, d) => UnitKind::Ratio(
                Box::new((&**n).clone()),
                Box::new((&**d).clone()),
            ),
            UnitKind::Product(a, b) => UnitKind::Product(
                Box::new((&**a).clone()),
                Box::new((&**b).clone()),
            ),
            UnitKind::Power(b, p) => UnitKind::Power(Box::new((&**b).clone()), *p),
            UnitKind::Native(n) => UnitKind::Native(*n),
            UnitKind::Custom(s) => UnitKind::Custom(s.clone()),
            UnitKind::Dimensionless => UnitKind::Dimensionless,
        }
    }
}

impl PartialEq for UnitKind {
    fn eq(&self, other: &UnitKind) -> (r: bool) {
        self.equals(other)
    }
}

impl vstd::std_specs::cmp::PartialEqSpecImpl for UnitKind {
    open spec fn obeys_eq_spec() -> bool {
        true
    }

    open spec fn eq_spec(&self, other: &UnitKind) -> bool {
        self@ == other@
    }
}

/// The unit of a product `l * r`, by the first rule that applies:
/// a power of `r` gains one in its exponent; a ratio over `r` cancels to its
/// numerator; a unit times itself is its square; anything else is a product.
pub open spec fn mul_expr(l: UnitExpr, r: UnitExpr) -> UnitExpr {
    if l is Power && *l->Power_0 == r {
        UnitExpr::Power(l->Power_0, l->Power_1 + 1)
    } else if l is Ratio && *l->Ratio_1 == r {
        *l->Ratio_0
    } else if l == r {
        UnitExpr::Power(Box::new(l), 2)
    } else {
        UnitExpr::Product(Box::new(l), Box::new(r))
    }
}

/// The unit of a quotient `l / r`, by the first rule that applies:
/// a ratio over `r` cancels to its numerator; a unit over itself is
/// dimensionless; anything else is a ratio.
pub open spec fn div_expr(l: UnitExpr, r: UnitExpr) -> UnitExpr {
    if l is Ratio && *l->Ratio_1 == r {
        *l->Ratio_0
    } else if l == r {
        UnitExpr::Dimensionless
    } else {
        UnitExpr::Ratio(Box::new(l), Box::new(r))
    }
}

/// A product can be formed unless it would raise an exponent past `usize::MAX`.
pub open spec fn mul_fits(l: UnitKind, r: UnitKind) -> bool {
    match l {
        UnitKind::Power(b, p) => (*b)@ == r@ ==> p < usize::MAX,
        _ => true,
    }
}

impl UnitKind {
    /// `mul_expr` on the unit expressions themselves: the result is built
    /// from the operands' own parts.
    pub open spec fn times_spec(self, rhs: UnitKind) -> UnitKind {
        if self is Power && (*self->Power_0)@ == rhs@ {
            UnitKind::Power(self->Power_0, (self->Power_1 + 1) as usize)
        } else if self is Ratio && (*self->Ratio_1)@ == rhs@ {
            *self->Ratio_0
        } else if self@ == rhs@ {
            UnitKind::Power(Box::new(self), 2)
        } else {
            UnitKind::Product(Box::new(self), Box::new(rhs))
        }
    }

    /// `div_expr` on the unit expressions themselves.
    pub open spec fn per_spec(self, rhs: UnitKind) -> UnitKind {
        if self is Ratio && (*self->Ratio_1)@ == rhs@ {
            *self->Ratio_0
        } else if self@ == rhs@ {
            UnitKind::Dimensionless
        } else {
            UnitKind::Ratio(Box::new(self), Box::new(rhs))
        }
    }

    /// The unit of the product of a quantity of unit `self` by one of unit `rhs`.
    pub fn times(self, rhs: UnitKind) -> (r: UnitKind)
        requires
            mul_fits(self, rhs),
        ensures
            r == self.times_spec(rhs),
            r@ == mul_expr(self@, rhs@),
    {
        let same = self.equals(&rhs);
        match self {
            UnitKind::Power(b, p) => {
                if b.equals(&rhs) {
                    UnitKind::Power(b, p + 1)
                } else if same {
                    UnitKind::Power(Box::new(UnitKind::Power(b, p)), 2)
                } else {
                    UnitKind::Product(Box::new(UnitKind::Power(b, p)), Box::new(rhs))
                }
            },
            UnitKind::Ratio(n, d) => {
                if d.equals(&rhs) {
                    *n
                } else if same {
                    UnitKind::Power(Box::new(UnitKind::Ratio(n, d)), 2)
                } else {
                    UnitKind::Product(Box::new(UnitKind::Ratio(n, d)), Box::new(rhs))
                }
            },
            other => {
                if same {
                    UnitKind::Power(Box::new(other), 2)
                } else {
                    UnitKind::Product(Box::new(other), Box::new(rhs))
                }
            },
        }
    }

    /// The unit of the quotient of a quantity of unit `self` by one of unit `rhs`.
    pub fn per(self, rhs: UnitKind) -> (r: UnitKind)
        ensures
            r == self.per_spec(rhs),
            r@ == div_expr(self@, rhs@),
    {
        let same = self.equals(&rhs);
        match self {
            UnitKind::Ratio(n, d) => {
                if d.equals(&rhs) {
                    *n
                } else if same {
                    UnitKind::Dimensionless
                } else {
                    UnitKind::Ratio(Box::new(UnitKind::Ratio(n, d)), Box::new(rhs))
                }
            },
            other => {
                if same {
                    UnitKind::Dimensionless
                } else {
                    UnitKind::Ratio(Box::new(other), Box::new(rhs))
                }
            },
        }
    }
}

/// The symbol of a native unit.
pub open spec fn symbol(n: NativeUnit) -> Seq<char> {
    match n {
        NativeUnit::Meter => "m"@,
        NativeUnit::Liter => "l"@,
        NativeUnit::Gramm => "g"@,
        NativeUnit::Second => "s"@,
        NativeUnit::Minute => "min"@,
        NativeUnit::Hour => "h"@,
        NativeUnit::Day => "d"@,
        NativeUnit::Week => "w"@,
        NativeUnit::Year => "y"@,
    }
}

/// The decimal digit for `d < 10`.
pub open spec fn digit_char(d: nat) -> char {
    seq!['0', '1', '2', '3', '4', '5', '6', '7', '8', '9'][d as int]
}

/// The decimal notation of `n`, without leading zeros.
pub open spec fn decimal(n: nat) -> Seq<char>
    decreases n,
{
    if n < 10 {
        seq![digit_char(n)]
    } else {
        decimal(n / 10).push(digit_char(n % 10))
    }
}

/// The text of a unit expression: symbols and names as they are, `/` for a
/// ratio, `*` for a product, `^` and the decimal exponent for a power, and
/// nothing for the dimensionless unit. No parentheses are added.
pub open spec fn render_expr(u: UnitExpr) -> Seq<char>
    decreases u,
{
    match u {
        UnitExpr::Ratio(n, d) => render_expr(*n) + "/"@ + render_expr(*d),
        UnitExpr::Product(a, b) => render_expr(*a) + "*"@ + render_expr(*b),
        UnitExpr::Power(b, p) => render_expr(*b) + "^"@ + decimal(p),
        UnitExpr::Native(n) => symbol(n),
        UnitExpr::Custom(t) => t,
        UnitExpr::Dimensionless => Seq::empty(),
    }
}

impl NativeUnit {
    /// The unit's symbol.
    pub fn symbol(&self) -> (r: &'static str)
        ensures
            r@ == symbol(*self),
    {
        match self {
            NativeUnit::Meter => "m",
            NativeUnit::Liter => "l",
            NativeUnit::Gramm => "g",
            NativeUnit::Second => "s",
            NativeUnit::Minute => "min",
            NativeUnit::Hour => "h",
            NativeUnit::Day => "d",
            NativeUnit::Week => "w",
            NativeUnit::Year => "y",
        }
    }
}

fn digit_str(d: usize) -> (r: &'static str)
    requires
        d < 10,
    ensures
        r@ == seq![digit_char(d as nat)],
{
    proof {
        reveal_strlit("0");
        reveal_strlit("1");
        reveal_strlit("2");
        reveal_strlit("3");
        reveal_strlit("4");
        reveal_strlit("5");
        reveal_strlit("6");
        reveal_strlit("7");
        reveal_strlit("8");
        reveal_strlit("9");
    }
    if d == 0 {
        "0"
    } else if d == 1 {
        "1"
    } else if d == 2 {
        "2"
    } else if d == 3 {
        "3"
    } else if d == 4 {
        "4"
    } else if d == 5 {
        "5"
    } else if d == 6 {
        "6"
    } else if d == 7 {
        "7"
    } else if d == 8 {
        "8"
    } else {
        "9"
    }
}

fn append_decimal(out: &mut String, n: usize)
    ensures
        final(out)@ == old(out)@ + decimal(n as nat),
    decreases n,
{
    if n >= 10 {
        append_decimal(out, n / 10);
    }
    out.append(digit_str(n % 10));
}

impl UnitKind {
    fn append_render(&self, out: &mut String)
        ensures
            final(out)@ == old(out)@ + render_expr(self@),
        decreases self,
    {
        match self {
            UnitKind::Ratio(n, d) => {
                n.append_render(out);
                out.append("/");
                d.append_render(out);
            },
            UnitKind::Product(a, b) => {
                a.append_render(out);
                out.append("*");
                b.append_render(out);
            },
            UnitKind::Power(b, p) => {
                b.append_render(out);
                out.append("^");
                append_decimal(out, *p);
            },
            UnitKind::Native(n) => out.append(n.symbol()),
            UnitKind::Custom(t) => out.append(t.as_str()),
            UnitKind::Dimensionless => {},
        }
    }

    /// The unit's text, as `render_expr` gives it.
    pub fn render(&self) -> (r: String)
        ensures
            r@ == render_expr(self@),
    {
        let mut out = String::new();
        self.append_render(&mut out);
        out
    }
}

} // verus!
