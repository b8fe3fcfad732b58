//! What an expression of the Metal shading language computes.
//!
//! An expression is a tree. [`Expr::text`] writes it down as a program holds it,
//! and [`Expr::value`] says what it computes, over real numbers. A text computes
//! a function where some tree is written so, for all operands, and has that
//! value.

use vstd::prelude::*;

verus! {

// ---------------------------------------------------------------------------
// Values
// ---------------------------------------------------------------------------

/// A scalar, which has one lane, or a vector. A truth value is one or zero.
pub type Value = Seq<real>;

/// The functions of the standard library that have no algebraic definition, and
/// the derivatives, which depend on the neighbouring pixels.
pub struct Library {
    pub pow: spec_fn(real, real) -> real,
    pub exp: spec_fn(real) -> real,
    pub exp2: spec_fn(real) -> real,
    pub log2: spec_fn(real) -> real,
    pub rsqrt: spec_fn(real) -> real,
    pub sqrt: spec_fn(real) -> real,
    pub cos: spec_fn(real) -> real,
    pub sin: spec_fn(real) -> real,
    pub floor: spec_fn(real) -> real,
    pub round: spec_fn(real) -> real,
    pub dfdx: spec_fn(Value) -> Value,
    pub dfdy: spec_fn(Value) -> Value,
}

/// What an expression is evaluated in.
pub struct Env {
    pub operands: Seq<Value>,
    pub names: spec_fn(Seq<char>) -> Value,
    pub library: Library,
}

/// A whole number.
pub open spec fn whole(n: int) -> real {
    n as real
}

/// One for a true condition, zero for a false one.
pub open spec fn truth(b: bool) -> real {
    if b {
        whole(1)
    } else {
        whole(0)
    }
}

/// Lane `i` of a value; a scalar has the same in all.
pub open spec fn lane_of(v: Value, i: int) -> real {
    if v.len() == 1 {
        v[0]
    } else {
        v[i]
    }
}

/// The number of lanes of an operation on values with `m` and `n` lanes.
pub open spec fn width(m: nat, n: nat) -> nat {
    if m >= n {
        m
    } else {
        n
    }
}

/// A scalar.
pub open spec fn scalar(x: real) -> Value {
    seq![x]
}

/// Four times the same.
pub open spec fn four(x: real) -> Value {
    seq![x, x, x, x]
}

/// `f` of each lane.
pub open spec fn each(a: Value, f: spec_fn(real) -> real) -> Value {
    Seq::new(a.len(), |i: int| f(a[i]))
}

/// `f` of the lanes of two values, one after the other.
pub open spec fn both(a: Value, b: Value, f: spec_fn(real, real) -> real) -> Value {
    Seq::new(width(a.len(), b.len()), |i: int| f(lane_of(a, i), lane_of(b, i)))
}

/// `f` of the lanes of three values, one after the other.
pub open spec fn all_three(
    a: Value,
    b: Value,
    c: Value,
    f: spec_fn(real, real, real) -> real,
) -> Value {
    Seq::new(
        width(a.len(), width(b.len(), c.len())),
        |i: int| f(lane_of(a, i), lane_of(b, i), lane_of(c, i)),
    )
}

/// The distance from zero.
pub open spec fn absolute(x: real) -> real {
    if x < whole(0) {
        -x
    } else {
        x
    }
}

/// The lesser of two numbers.
pub open spec fn lesser(a: real, b: real) -> real {
    if a <= b {
        a
    } else {
        b
    }
}

/// The greater of two numbers.
pub open spec fn greater(a: real, b: real) -> real {
    if a >= b {
        a
    } else {
        b
    }
}

/// The number in the unit range that is nearest.
pub open spec fn clamped(x: real) -> real {
    lesser(greater(x, whole(0)), whole(1))
}

/// Minus one, zero or one.
pub open spec fn sign_of(x: real) -> real {
    if x > whole(0) {
        whole(1)
    } else if x < whole(0) {
        whole(-1)
    } else {
        whole(0)
    }
}

/// The sum of the products of the first `n` lanes.
pub open spec fn inner(a: Value, b: Value, n: nat) -> real
    decreases n,
{
    if n == 0 {
        whole(0)
    } else {
        inner(a, b, (n - 1) as nat) + a[n - 1] * b[n - 1]
    }
}

// ---------------------------------------------------------------------------
// Numerals
// ---------------------------------------------------------------------------

/// The number that a digit stands for.
pub open spec fn digit_value(c: char) -> int {
    c as int - '0' as int
}

/// The number that the digits of a numeral make up, its point left out.
pub open spec fn digits_value(t: Seq<char>) -> int
    decreases t.len(),
{
    if t.len() == 0 {
        0
    } else if t.last() == '.' {
        digits_value(t.drop_last())
    } else {
        10 * digits_value(t.drop_last()) + digit_value(t.last())
    }
}

/// Ten to the number of digits after the point.
pub open spec fn point_scale(t: Seq<char>) -> int
    decreases t.len(),
{
    if t.len() == 0 || t.last() == '.' {
        1
    } else {
        10 * point_scale(t.drop_last())
    }
}

/// The number that a numeral with a point stands for.
pub open spec fn numeral_value(t: Seq<char>) -> real {
    whole(digits_value(t)) / whole(point_scale(t))
}

// ---------------------------------------------------------------------------
// Trees
// ---------------------------------------------------------------------------

/// An operator between two expressions.
pub enum Operator {
    Plus,
    Minus,
    Times,
    Over,
    Less,
    AtMost,
    More,
    AtLeast,
    Same,
    Other,
}

/// A function of the standard library, or a constructor.
pub enum Function {
    Fma,
    Dot,
    Rsqrt,
    Abs,
    Min,
    Max,
    Fract,
    Mix,
    Pow,
    Exp,
    PreciseExp,
    Exp2,
    Log2,
    Cross,
    Sign,
    Dfdx,
    Dfdy,
    Cos,
    Sin,
    Select,
    Step,
    Saturate,
    Floor,
    Round,
    Any,
    Length,
    Normalize,
    Reflect,
    Sqrt,
    Clamp,
    Float2,
    Float3,
    Float4,
    Bool4,
    Int4,
}

/// An expression. An operand is written as the text that stands for it.
pub enum Expr {
    Operand(nat),
    Name(Seq<char>),
    Number(Seq<char>),
    Truth(bool),
    Group(Box<Expr>),
    Lanes(Box<Expr>, Seq<char>),
    Negated(Box<Expr>),
    Inverted(Box<Expr>),
    Infix(Operator, Box<Expr>, Box<Expr>),
    Choice(Box<Expr>, Box<Expr>, Box<Expr>),
    One(Function, Box<Expr>),
    Two(Function, Box<Expr>, Box<Expr>),
    Three(Function, Box<Expr>, Box<Expr>, Box<Expr>),
    Four(Function, Box<Expr>, Box<Expr>, Box<Expr>, Box<Expr>),
}

/// Operand `i`.
pub open spec fn operand(i: nat) -> Expr {
    Expr::Operand(i)
}

/// A name.
pub open spec fn name(n: Seq<char>) -> Expr {
    Expr::Name(n)
}

/// A numeral.
pub open spec fn number(n: Seq<char>) -> Expr {
    Expr::Number(n)
}

/// An expression in brackets.
pub open spec fn group(a: Expr) -> Expr {
    Expr::Group(Box::new(a))
}

/// Lanes of a vector.
pub open spec fn lanes(a: Expr, letters: Seq<char>) -> Expr {
    Expr::Lanes(Box::new(a), letters)
}

/// An expression with its sign changed.
pub open spec fn negated(a: Expr) -> Expr {
    Expr::Negated(Box::new(a))
}

/// The opposite of a truth value.
pub open spec fn inverted(a: Expr) -> Expr {
    Expr::Inverted(Box::new(a))
}

/// An operator between two expressions.
pub open spec fn infix(op: Operator, a: Expr, b: Expr) -> Expr {
    Expr::Infix(op, Box::new(a), Box::new(b))
}

/// One of two expressions, by a condition.
pub open spec fn choice(c: Expr, a: Expr, b: Expr) -> Expr {
    Expr::Choice(Box::new(c), Box::new(a), Box::new(b))
}

/// A call with one argument.
pub open spec fn call_1(f: Function, a: Expr) -> Expr {
    Expr::One(f, Box::new(a))
}

/// A call with two arguments.
pub open spec fn call_2(f: Function, a: Expr, b: Expr) -> Expr {
    Expr::Two(f, Box::new(a), Box::new(b))
}

/// A call with three arguments.
pub open spec fn call_3(f: Function, a: Expr, b: Expr, c: Expr) -> Expr {
    Expr::Three(f, Box::new(a), Box::new(b), Box::new(c))
}

/// A call with four arguments.
pub open spec fn call_4(f: Function, a: Expr, b: Expr, c: Expr, d: Expr) -> Expr {
    Expr::Four(f, Box::new(a), Box::new(b), Box::new(c), Box::new(d))
}

impl Operator {
    /// The operator with its blanks.
    pub open spec fn text(self) -> Seq<char> {
        match self {
            Operator::Plus => " + "@,
            Operator::Minus => " - "@,
            Operator::Times => " * "@,
            Operator::Over => " / "@,
            Operator::Less => " < "@,
            Operator::AtMost => " <= "@,
            Operator::More => " > "@,
            Operator::AtLeast => " >= "@,
            Operator::Same => " == "@,
            Operator::Other => " != "@,
        }
    }

    /// How tightly the operator binds.
    pub open spec fn level(self) -> int {
        match self {
            Operator::Times | Operator::Over => 5,
            Operator::Plus | Operator::Minus => 4,
            Operator::Less | Operator::AtMost | Operator::More | Operator::AtLeast => 3,
            Operator::Same | Operator::Other => 2,
        }
    }

    /// What the operator computes in one lane.
    pub open spec fn apply(self, a: real, b: real) -> real {
        match self {
            Operator::Plus => a + b,
            Operator::Minus => a - b,
            Operator::Times => a * b,
            Operator::Over => a / b,
            Operator::Less => truth(a < b),
            Operator::AtMost => truth(a <= b),
            Operator::More => truth(a > b),
            Operator::AtLeast => truth(a >= b),
            Operator::Same => truth(a == b),
            Operator::Other => truth(a != b),
        }
    }
}

impl Function {
    /// The name and the bracket behind it.
    pub open spec fn text(self) -> Seq<char> {
        match self {
            Function::Fma => "fma("@,
            Function::Dot => "dot("@,
            Function::Rsqrt => "rsqrt("@,
            Function::Abs => "abs("@,
            Function::Min => "min("@,
            Function::Max => "max("@,
            Function::Fract => "fract("@,
            Function::Mix => "mix("@,
            Function::Pow => "pow("@,
            Function::Exp => "exp("@,
            Function::PreciseExp => "precise::exp("@,
            Function::Exp2 => "exp2("@,
            Function::Log2 => "log2("@,
            Function::Cross => "cross("@,
            Function::Sign => "sign("@,
            Function::Dfdx => "dfdx("@,
            Function::Dfdy => "dfdy("@,
            Function::Cos => "cos("@,
            Function::Sin => "sin("@,
            Function::Select => "select("@,
            Function::Step => "step("@,
            Function::Saturate => "saturate("@,
            Function::Floor => "floor("@,
            Function::Round => "round("@,
            Function::Any => "any("@,
            Function::Length => "length("@,
            Function::Normalize => "normalize("@,
            Function::Reflect => "reflect("@,
            Function::Sqrt => "sqrt("@,
            Function::Clamp => "clamp("@,
            Function::Float2 => "float2("@,
            Function::Float3 => "float3("@,
            Function::Float4 => "float4("@,
            Function::Bool4 => "bool4("@,
            Function::Int4 => "int4("@,
        }
    }

    /// What a function of one argument computes.
    pub open spec fn of_one(self, a: Value, l: Library) -> Value {
        match self {
            Function::Rsqrt => each(a, l.rsqrt),
            Function::Abs => each(a, |x: real| absolute(x)),
            Function::Fract => each(a, |x: real| x - (l.floor)(x)),
            Function::Exp | Function::PreciseExp => each(a, l.exp),
            Function::Exp2 => each(a, l.exp2),
            Function::Log2 => each(a, l.log2),
            Function::Sign => each(a, |x: real| sign_of(x)),
            Function::Dfdx => (l.dfdx)(a),
            Function::Dfdy => (l.dfdy)(a),
            Function::Cos => each(a, l.cos),
            Function::Sin => each(a, l.sin),
            Function::Saturate => each(a, |x: real| clamped(x)),
            Function::Floor => each(a, l.floor),
            Function::Round => each(a, l.round),
            Function::Any => scalar(
                truth(exists|i: int| 0 <= i < a.len() && #[trigger] a[i] != whole(0)),
            ),
            Function::Length => scalar((l.sqrt)(inner(a, a, a.len()))),
            Function::Normalize => {
                let r = (l.rsqrt)(inner(a, a, a.len()));
                each(a, |x: real| x * r)
            },
            Function::Sqrt => each(a, l.sqrt),
            Function::Float2 => if a.len() == 1 {
                seq![a[0], a[0]]
            } else {
                a
            },
            Function::Float3 => if a.len() == 1 {
                seq![a[0], a[0], a[0]]
            } else {
                a
            },
            Function::Float4 | Function::Int4 => if a.len() == 1 {
                four(a[0])
            } else {
                a
            },
            Function::Bool4 => each(
                if a.len() == 1 {
                    four(a[0])
                } else {
                    a
                },
                |x: real| truth(x != whole(0)),
            ),
            _ => a,
        }
    }

    /// What a function of two arguments computes.
    pub open spec fn of_two(self, a: Value, b: Value, l: Library) -> Value {
        match self {
            Function::Dot => scalar(inner(a, b, a.len())),
            Function::Min => both(a, b, |x: real, y: real| lesser(x, y)),
            Function::Max => both(a, b, |x: real, y: real| greater(x, y)),
            Function::Pow => both(a, b, l.pow),
            Function::Step => both(a, b, |edge: real, x: real| truth(x >= edge)),
            Function::Reflect => {
                let d = whole(2) * inner(b, a, a.len());
                both(a, b, |x: real, y: real| x - d * y)
            },
            Function::Cross => seq![
                a[1] * b[2] - a[2] * b[1],
                a[2] * b[0] - a[0] * b[2],
                a[0] * b[1] - a[1] * b[0],
            ],
            _ => a + b,
        }
    }

    /// What a function of three arguments computes.
    pub open spec fn of_three(self, a: Value, b: Value, c: Value) -> Value {
        match self {
            Function::Fma => all_three(a, b, c, |x: real, y: real, z: real| x * y + z),
            Function::Clamp => all_three(
                a,
                b,
                c,
                |x: real, low: real, high: real| lesser(greater(x, low), high),
            ),
            Function::Mix => all_three(
                a,
                b,
                c,
                |x: real, y: real, t: real| x * (whole(1) - t) + y * t,
            ),
            Function::Select => all_three(
                a,
                b,
                c,
                |x: real, y: real, t: real|
                    if t != whole(0) {
                        y
                    } else {
                        x
                    },
            ),
            _ => a + b + c,
        }
    }
}

/// The lane that a letter selects.
pub open spec fn letter_lane(c: char) -> int {
    if c == 'x' || c == 'r' {
        0
    } else if c == 'y' || c == 'g' {
        1
    } else if c == 'z' || c == 'b' {
        2
    } else {
        3
    }
}

impl Expr {
    /// `acc`, and behind it the expression as a program holds it, with `s` for
    /// the operands.
    pub open spec fn behind(self, acc: Seq<char>, s: Seq<Seq<char>>) -> Seq<char>
        decreases self,
    {
        match self {
            Expr::Operand(i) => acc + s[i as int],
            Expr::Name(n) => acc + n,
            Expr::Number(n) => acc + n,
            Expr::Truth(b) => if b {
                acc + "true"@
            } else {
                acc + "false"@
            },
            Expr::Group(a) => a.behind(acc + "("@, s) + ")"@,
            Expr::Lanes(a, letters) => a.behind(acc, s) + "."@ + letters,
            Expr::Negated(a) => a.behind(acc + "-"@, s),
            Expr::Inverted(a) => a.behind(acc + "!"@, s),
            Expr::Infix(op, a, b) => b.behind(a.behind(acc, s) + op.text(), s),
            Expr::Choice(c, a, b) => b.behind(
                a.behind(c.behind(acc, s) + " ? "@, s) + " : "@,
                s,
            ),
            Expr::One(f, a) => a.behind(acc + f.text(), s) + ")"@,
            Expr::Two(f, a, b) => b.behind(a.behind(acc + f.text(), s) + ", "@, s) + ")"@,
            Expr::Three(f, a, b, c) => c.behind(
                b.behind(a.behind(acc + f.text(), s) + ", "@, s) + ", "@,
                s,
            ) + ")"@,
            Expr::Four(f, a, b, c, d) => d.behind(
                c.behind(b.behind(a.behind(acc + f.text(), s) + ", "@, s) + ", "@, s) + ", "@,
                s,
            ) + ")"@,
        }
    }

    /// The expression as a program holds it.
    pub open spec fn text(self, s: Seq<Seq<char>>) -> Seq<char> {
        self.behind(Seq::empty(), s)
    }

    /// How tightly the outermost part of the expression binds. `hole` says it of
    /// the operands.
    pub open spec fn level(self, hole: int) -> int {
        match self {
            Expr::Operand(_) => hole,
            Expr::Negated(_) | Expr::Inverted(_) => 6,
            Expr::Infix(op, _, _) => op.level(),
            Expr::Choice(_, _, _) => 1,
            _ => 7,
        }
    }

    /// Whether the text can be read in no other way than as this expression: the
    /// parts of an operator bind tighter than it, the left one as tight.
    pub open spec fn is_plain(self, hole: int) -> bool
        decreases self,
    {
        match self {
            Expr::Group(a) => a.is_plain(hole),
            Expr::Lanes(a, _) => a.level(hole) == 7 && a.is_plain(hole),
            Expr::Negated(a) => a.level(hole) == 7 && a.is_plain(hole),
            Expr::Inverted(a) => a.level(hole) == 7 && a.is_plain(hole),
            Expr::Infix(op, a, b) => a.level(hole) >= op.level() && b.level(hole) > op.level()
                && a.is_plain(hole) && b.is_plain(hole),
            Expr::Choice(c, a, b) => c.level(hole) > 1 && a.level(hole) > 1 && b.level(hole) > 1
                && c.is_plain(hole) && a.is_plain(hole) && b.is_plain(hole),
            Expr::One(_, a) => a.is_plain(hole),
            Expr::Two(_, a, b) => a.is_plain(hole) && b.is_plain(hole),
            Expr::Three(_, a, b, c) => a.is_plain(hole) && b.is_plain(hole) && c.is_plain(hole),
            Expr::Four(_, a, b, c, d) => a.is_plain(hole) && b.is_plain(hole) && c.is_plain(hole)
                && d.is_plain(hole),
            _ => true,
        }
    }

    /// What the expression computes.
    pub open spec fn value(self, env: Env) -> Value
        decreases self,
    {
        match self {
            Expr::Operand(i) => env.operands[i as int],
            Expr::Name(n) => (env.names)(n),
            Expr::Number(n) => scalar(numeral_value(n)),
            Expr::Truth(b) => scalar(truth(b)),
            Expr::Group(a) => a.value(env),
            Expr::Lanes(a, letters) => {
                let v = a.value(env);
                Seq::new(letters.len(), |i: int| v[letter_lane(letters[i])])
            },
            Expr::Negated(a) => each(a.value(env), |x: real| -x),
            Expr::Inverted(a) => each(a.value(env), |x: real| truth(x == whole(0))),
            Expr::Infix(op, a, b) => both(
                a.value(env),
                b.value(env),
                |x: real, y: real| op.apply(x, y),
            ),
            Expr::Choice(c, a, b) => if c.value(env)[0] != whole(0) {
                a.value(env)
            } else {
                b.value(env)
            },
            Expr::One(f, a) => f.of_one(a.value(env), env.library),
            Expr::Two(f, a, b) => f.of_two(a.value(env), b.value(env), env.library),
            Expr::Three(f, a, b, c) => f.of_three(a.value(env), b.value(env), c.value(env)),
            Expr::Four(_, a, b, c, d) => a.value(env) + b.value(env) + c.value(env) + d.value(env),
        }
    }
}

// ---------------------------------------------------------------------------
// Texts
// ---------------------------------------------------------------------------

/// Whether each of the first `n` operands is a vector of four lanes.
pub open spec fn vectors(operands: Seq<Value>, n: nat) -> bool {
    operands.len() >= n && forall|i: int| 0 <= i < n ==> (#[trigger] operands[i]).len() == 4
}

/// Whether `e` is what `text` says of any `n` operands that bind as tightly as
/// `hole` says, and nothing else, and binds as tightly as `tight` says itself.
pub open spec fn is_written(
    e: Expr,
    text: spec_fn(Seq<Seq<char>>) -> Seq<char>,
    n: nat,
    hole: int,
    tight: int,
) -> bool {
    &&& e.is_plain(hole)
    &&& e.level(hole) >= tight
    &&& forall|s: Seq<Seq<char>>| s.len() >= n ==> #[trigger] text(s) == e.text(s)
}

/// Whether `e` has the value `meaning`, whatever the operands hold.
pub open spec fn has_value(e: Expr, n: nat, meaning: spec_fn(Env) -> Value) -> bool {
    forall|env: Env| #[trigger] vectors(env.operands, n) ==> e.value(env) == meaning(env)
}

/// `old` after the first `n` of the lanes that `letters` select took the lanes of
/// `v`, one after the other.
pub open spec fn assigned(old: Value, letters: Seq<char>, v: Value, n: nat) -> Value
    decreases n,
{
    if n == 0 {
        old
    } else {
        assigned(old, letters, v, (n - 1) as nat).update(letter_lane(letters[n - 1]), v[n - 1])
    }
}

/// Whether `text` is the statement that assigns `e` to the lanes of `target` that
/// `letters` select.
pub open spec fn assigns_lanes(
    text: Seq<char>,
    target: Seq<char>,
    letters: Seq<char>,
    e: Expr,
    s: Seq<Seq<char>>,
) -> bool {
    text == e.behind("    "@ + target + "."@ + letters + " = "@, s) + ";\n"@
}

/// Whether `text` is the statement that assigns `e` to `target`.
pub open spec fn assigns(text: Seq<char>, target: Seq<char>, e: Expr, s: Seq<Seq<char>>) -> bool {
    text == e.behind("    "@ + target + " = "@, s) + ";\n"@
}

/// Whether the expression that `text` writes down of any `n` operands computes
/// `meaning`.
pub open spec fn computes(
    text: spec_fn(Seq<Seq<char>>) -> Seq<char>,
    n: nat,
    hole: int,
    tight: int,
    meaning: spec_fn(Env) -> Value,
) -> bool {
    exists|e: Expr| #[trigger] is_written(e, text, n, hole, tight) && has_value(e, n, meaning)
}

// ---------------------------------------------------------------------------
// Statements
// ---------------------------------------------------------------------------

/// A statement: a declaration with its type, or a change of a variable or of lanes
/// of it.
pub enum Statement {
    Declare(Seq<char>, Seq<char>, Expr),
    Assign(Seq<char>, Expr),
    AssignLanes(Seq<char>, Seq<char>, Expr),
    Increase(Seq<char>, Expr),
    IncreaseLanes(Seq<char>, Seq<char>, Expr),
    Scale(Seq<char>, Expr),
}

/// The value of a name.
pub open spec fn named(env: Env, n: Seq<char>) -> Value {
    (env.names)(n)
}

/// The environment in which `n` holds `v`.
pub open spec fn holding(env: Env, n: Seq<char>, v: Value) -> Env {
    Env {
        names: |m: Seq<char>|
            if m == n {
                v
            } else {
                (env.names)(m)
            },
        ..env
    }
}

/// The sum of two values, lane by lane.
pub open spec fn sum_of(a: Value, b: Value) -> Value {
    both(a, b, |x: real, y: real| x + y)
}

impl Statement {
    /// `acc`, and behind it the statement on a line of its own.
    pub open spec fn behind(self, acc: Seq<char>, indent: Seq<char>) -> Seq<char> {
        let none = Seq::<Seq<char>>::empty();
        match self {
            Statement::Declare(ty, n, e) => e.behind(acc + indent + ty + " "@ + n + " = "@, none)
                + ";\n"@,
            Statement::Assign(n, e) => e.behind(acc + indent + n + " = "@, none) + ";\n"@,
            Statement::AssignLanes(n, l, e) => e.behind(acc + indent + n + "."@ + l + " = "@, none)
                + ";\n"@,
            Statement::Increase(n, e) => e.behind(acc + indent + n + " += "@, none) + ";\n"@,
            Statement::IncreaseLanes(n, l, e) => e.behind(
                acc + indent + n + "."@ + l + " += "@,
                none,
            ) + ";\n"@,
            Statement::Scale(n, e) => e.behind(acc + indent + n + " *= "@, none) + ";\n"@,
        }
    }

    /// Whether the expression of the statement can be read in one way only.
    pub open spec fn is_plain(self) -> bool {
        match self {
            Statement::Declare(_, _, e) => e.is_plain(7),
            Statement::Assign(_, e) => e.is_plain(7),
            Statement::AssignLanes(_, _, e) => e.is_plain(7),
            Statement::Increase(_, e) => e.is_plain(7),
            Statement::IncreaseLanes(_, _, e) => e.is_plain(7),
            Statement::Scale(_, e) => e.is_plain(7),
        }
    }

    /// What holds after the statement.
    pub open spec fn run(self, env: Env) -> Env {
        match self {
            Statement::Declare(_, n, e) => holding(env, n, e.value(env)),
            Statement::Assign(n, e) => holding(env, n, e.value(env)),
            Statement::AssignLanes(n, l, e) => {
                let v = named(env, n);
                holding(env, n, assigned(v, l, e.value(env), l.len()))
            },
            Statement::Increase(n, e) => holding(env, n, sum_of(named(env, n), e.value(env))),
            Statement::IncreaseLanes(n, l, e) => {
                let v = named(env, n);
                let old_lanes = Seq::new(l.len(), |i: int| v[letter_lane(l[i])]);
                holding(env, n, assigned(v, l, sum_of(old_lanes, e.value(env)), l.len()))
            },
            Statement::Scale(n, e) => holding(
                env,
                n,
                both(named(env, n), e.value(env), |x: real, y: real| x * y),
            ),
        }
    }
}

/// `acc`, and behind it the statements, each on a line of its own.
pub open spec fn lines(p: Seq<Statement>, acc: Seq<char>, indent: Seq<char>) -> Seq<char>
    decreases p.len(),
{
    if p.len() == 0 {
        acc
    } else {
        p.last().behind(lines(p.drop_last(), acc, indent), indent)
    }
}

/// What holds after the statements, one after the other.
pub open spec fn after(p: Seq<Statement>, env: Env) -> Env
    decreases p.len(),
{
    if p.len() == 0 {
        env
    } else {
        p.last().run(after(p.drop_last(), env))
    }
}

impl Statement {
    /// The variable that the statement changes.
    pub open spec fn target(self) -> Seq<char> {
        match self {
            Statement::Declare(_, n, _) => n,
            Statement::Assign(n, _) => n,
            Statement::AssignLanes(n, _, _) => n,
            Statement::Increase(n, _) => n,
            Statement::IncreaseLanes(n, _, _) => n,
            Statement::Scale(n, _) => n,
        }
    }
}

/// Statements change only their targets.
pub proof fn other_names_are_kept(p: Seq<Statement>, env: Env, m: Seq<char>)
    requires
        forall|i: int| 0 <= i < p.len() ==> (#[trigger] p[i]).target() != m,
    ensures
        named(after(p, env), m) == named(env, m),
        after(p, env).library == env.library,
    decreases p.len(),
{
    if p.len() > 0 {
        other_names_are_kept(p.drop_last(), env, m);
        assert(p.last() == p[p.len() - 1]);
    }
}

/// Statements that follow others are written behind them and run after them.
pub proof fn programs_compose(
    p: Seq<Statement>,
    q: Seq<Statement>,
    acc: Seq<char>,
    indent: Seq<char>,
)
    ensures
        lines(p + q, acc, indent) == lines(q, lines(p, acc, indent), indent),
        forall|env: Env| #[trigger] after(p + q, env) == after(q, after(p, env)),
    decreases q.len(),
{
    if q.len() == 0 {
        assert(p + q =~= p);
    } else {
        let r = q.drop_last();
        programs_compose(p, r, acc, indent);
        assert((p + q).drop_last() =~= p + r);
        assert forall|env: Env| #[trigger] after(p + q, env) == after(q, after(p, env)) by {
            assert(after(p + r, env) == after(r, after(p, env)));
        }
    }
}

/// Statements that are written behind a text leave the text as it is.
pub proof fn lines_append(p: Seq<Statement>, acc: Seq<char>, indent: Seq<char>)
    ensures
        lines(p, acc, indent) == acc + lines(p, Seq::empty(), indent),
    decreases p.len(),
{
    let none = Seq::<char>::empty();
    if p.len() == 0 {
        assert(acc + none =~= acc);
    } else {
        lines_append(p.drop_last(), acc, indent);
        let (a, b) = (lines(p.drop_last(), acc, indent), lines(p.drop_last(), none, indent));
        let s = Seq::<Seq<char>>::empty();
        match p.last() {
            Statement::Declare(ty, n, e) => {
                writing_appends(e, a + indent + ty + " "@ + n + " = "@, s);
                writing_appends(e, b + indent + ty + " "@ + n + " = "@, s);
            },
            Statement::Assign(n, e) => {
                writing_appends(e, a + indent + n + " = "@, s);
                writing_appends(e, b + indent + n + " = "@, s);
            },
            Statement::AssignLanes(n, l, e) => {
                writing_appends(e, a + indent + n + "."@ + l + " = "@, s);
                writing_appends(e, b + indent + n + "."@ + l + " = "@, s);
            },
            Statement::Increase(n, e) => {
                writing_appends(e, a + indent + n + " += "@, s);
                writing_appends(e, b + indent + n + " += "@, s);
            },
            Statement::IncreaseLanes(n, l, e) => {
                writing_appends(e, a + indent + n + "."@ + l + " += "@, s);
                writing_appends(e, b + indent + n + "."@ + l + " += "@, s);
            },
            Statement::Scale(n, e) => {
                writing_appends(e, a + indent + n + " *= "@, s);
                writing_appends(e, b + indent + n + " *= "@, s);
            },
        }
        assert(lines(p, acc, indent) =~= acc + lines(p, none, indent));
    }
}

/// Whether `text` is the statements of `p`, to be read in one way only.
pub open spec fn is_program(
    text: Seq<char>,
    p: Seq<Statement>,
    acc: Seq<char>,
    indent: Seq<char>,
) -> bool {
    text == lines(p, acc, indent) && forall|i: int|
        0 <= i < p.len() ==> (#[trigger] p[i]).is_plain()
}

/// A numeral with one digit on either side of the point.
proof fn short_numeral(t: Seq<char>)
    requires
        t.len() == 3,
        t[0] != '.',
        t[1] == '.',
        t[2] != '.',
    ensures
        digits_value(t) == 10 * digit_value(t[0]) + digit_value(t[2]),
        point_scale(t) == 10,
{
    let u = t.drop_last();
    let v = u.drop_last();
    let w = v.drop_last();
    assert(w.len() == 0);
    assert(digits_value(w) == 0);
    assert(v.last() == t[0]);
    assert(digits_value(v) == digit_value(t[0]));
    assert(u.last() == t[1]);
    assert(digits_value(u) == digits_value(v));
    assert(point_scale(u) == 1);
    assert(digits_value(t) == 10 * digits_value(u) + digit_value(t.last()));
}

/// The values of the numerals that texts hold.
pub proof fn numerals()
    ensures
        numeral_value("0.0"@) == whole(0),
        numeral_value("0.5"@) == whole(1) / whole(2),
        numeral_value("1.0"@) == whole(1),
        numeral_value("2.0"@) == whole(2),
        numeral_value("4.0"@) == whole(4),
{
    reveal_strlit("0.0");
    reveal_strlit("0.5");
    reveal_strlit("1.0");
    reveal_strlit("2.0");
    reveal_strlit("4.0");
    short_numeral("0.0"@);
    short_numeral("0.5"@);
    short_numeral("1.0"@);
    short_numeral("2.0"@);
    short_numeral("4.0"@);
    assert(whole(0) / whole(10) == whole(0)) by (nonlinear_arith);
    assert(whole(5) / whole(10) == whole(1) / whole(2)) by (nonlinear_arith);
    assert(whole(10) / whole(10) == whole(1)) by (nonlinear_arith);
    assert(whole(20) / whole(10) == whole(2)) by (nonlinear_arith);
    assert(whole(40) / whole(10) == whole(4)) by (nonlinear_arith);
}

/// Writing an expression behind a text leaves the text as it is.
#[verifier::rlimit(60)]
pub proof fn writing_appends(e: Expr, acc: Seq<char>, s: Seq<Seq<char>>)
    ensures
        e.behind(acc, s) == acc + e.text(s),
    decreases e,
{
    let none = Seq::<char>::empty();
    match e {
        Expr::Group(a) => {
            writing_appends(*a, acc + "("@, s);
            writing_appends(*a, none + "("@, s);
            assert(e.behind(acc, s) =~= acc + e.text(s));
        },
        Expr::Lanes(a, letters) => {
            writing_appends(*a, acc, s);
            assert(e.behind(acc, s) =~= acc + e.text(s));
        },
        Expr::Negated(a) => {
            writing_appends(*a, acc + "-"@, s);
            writing_appends(*a, none + "-"@, s);
            assert(e.behind(acc, s) =~= acc + e.text(s));
        },
        Expr::Inverted(a) => {
            writing_appends(*a, acc + "!"@, s);
            writing_appends(*a, none + "!"@, s);
            assert(e.behind(acc, s) =~= acc + e.text(s));
        },
        Expr::Infix(op, a, b) => {
            writing_appends(*a, acc, s);
            writing_appends(*b, a.behind(acc, s) + op.text(), s);
            writing_appends(*b, a.text(s) + op.text(), s);
            assert(e.behind(acc, s) =~= acc + e.text(s));
        },
        Expr::Choice(c, a, b) => {
            writing_appends(*c, acc, s);
            writing_appends(*a, c.behind(acc, s) + " ? "@, s);
            writing_appends(*a, c.text(s) + " ? "@, s);
            writing_appends(*b, a.behind(c.behind(acc, s) + " ? "@, s) + " : "@, s);
            writing_appends(*b, a.behind(c.text(s) + " ? "@, s) + " : "@, s);
            assert(e.behind(acc, s) =~= acc + e.text(s));
        },
        Expr::One(f, a) => {
            writing_appends(*a, acc + f.text(), s);
            writing_appends(*a, none + f.text(), s);
            assert(e.behind(acc, s) =~= acc + e.text(s));
        },
        Expr::Two(f, a, b) => {
            let (x, y) = (acc + f.text(), none + f.text());
            writing_appends(*a, x, s);
            writing_appends(*a, y, s);
            writing_appends(*b, a.behind(x, s) + ", "@, s);
            writing_appends(*b, a.behind(y, s) + ", "@, s);
            assert(e.behind(acc, s) =~= acc + e.text(s));
        },
        Expr::Three(f, a, b, c) => {
            let (x, y) = (acc + f.text(), none + f.text());
            writing_appends(*a, x, s);
            writing_appends(*a, y, s);
            let (x, y) = (a.behind(x, s) + ", "@, a.behind(y, s) + ", "@);
            writing_appends(*b, x, s);
            writing_appends(*b, y, s);
            writing_appends(*c, b.behind(x, s) + ", "@, s);
            writing_appends(*c, b.behind(y, s) + ", "@, s);
            assert(e.behind(acc, s) =~= acc + e.text(s));
        },
        Expr::Four(f, a, b, c, d) => {
            let (x, y) = (acc + f.text(), none + f.text());
            writing_appends(*a, x, s);
            writing_appends(*a, y, s);
            let (x, y) = (a.behind(x, s) + ", "@, a.behind(y, s) + ", "@);
            writing_appends(*b, x, s);
            writing_appends(*b, y, s);
            let (x, y) = (b.behind(x, s) + ", "@, b.behind(y, s) + ", "@);
            writing_appends(*c, x, s);
            writing_appends(*c, y, s);
            writing_appends(*d, c.behind(x, s) + ", "@, s);
            writing_appends(*d, c.behind(y, s) + ", "@, s);
            assert(e.behind(acc, s) =~= acc + e.text(s));
        },
        _ => assert(e.behind(acc, s) =~= acc + e.text(s)),
    }
}

} // verus!
