//! Operator blocks: arithmetic, comparison, logic and text.
use vstd::prelude::*;
use crate::blocks::{Block, Links};
use crate::raw::clone_link;
use crate::value::{Value, ValueView};

verus! {

/// The sum of two operands.
#[derive(Debug, Clone, PartialEq)]
pub struct Add {
    pub a: Option<Value>,
    pub b: Option<Value>,
    pub prev: Option<String>,
    pub next: Option<String>,
}

/// The mathematical model of [`Add`].
pub ghost struct AddView {
    pub a: Option<ValueView>,
    pub b: Option<ValueView>,
    pub prev: Option<Seq<char>>,
    pub next: Option<Seq<char>>,
}

impl DeepView for Add {
    type V = AddView;

    open spec fn deep_view(&self) -> AddView {
        AddView {
            a: self.a.deep_view(),
            b: self.b.deep_view(),
            prev: self.prev.deep_view(),
            next: self.next.deep_view(),
        }
    }
}

impl Block for Add {
    open spec fn links(&self) -> Links {
        Links { prev: self.prev.deep_view(), next: self.next.deep_view() }
    }

    fn prev(&self) -> (id: Option<String>) {
        clone_link(&self.prev)
    }

    fn next(&self) -> (id: Option<String>) {
        clone_link(&self.next)
    }
}

/// The difference of two operands.
#[derive(Debug, Clone, PartialEq)]
pub struct Sub {
    pub a: Option<Value>,
    pub b: Option<Value>,
    pub prev: Option<String>,
    pub next: Option<String>,
}

/// The mathematical model of [`Sub`].
pub ghost struct SubView {
    pub a: Option<ValueView>,
    pub b: Option<ValueView>,
    pub prev: Option<Seq<char>>,
    pub next: Option<Seq<char>>,
}

impl DeepView for Sub {
    type V = SubView;

    open spec fn deep_view(&self) -> SubView {
        SubView {
            a: self.a.deep_view(),
            b: self.b.deep_view(),
            prev: self.prev.deep_view(),
            next: self.next.deep_view(),
        }
    }
}

impl Block for Sub {
    open spec fn links(&self) -> Links {
        Links { prev: self.prev.deep_view(), next: self.next.deep_view() }
    }

    fn prev(&self) -> (id: Option<String>) {
        clone_link(&self.prev)
    }

    fn next(&self) -> (id: Option<String>) {
        clone_link(&self.next)
    }
}

/// The product of two operands.
#[derive(Debug, Clone, PartialEq)]
pub struct Mul {
    pub a: Option<Value>,
    pub b: Option<Value>,
    pub prev: Option<String>,
    pub next: Option<String>,
}

/// The mathematical model of [`Mul`].
pub ghost struct MulView {
    pub a: Option<ValueView>,
    pub b: Option<ValueView>,
    pub prev: Option<Seq<char>>,
    pub next: Option<Seq<char>>,
}

impl DeepView for Mul {
    type V = MulView;

    open spec fn deep_view(&self) -> MulView {
        MulView {
            a: self.a.deep_view(),
            b: self.b.deep_view(),
            prev: self.prev.deep_view(),
            next: self.next.deep_view(),
        }
    }
}

impl Block for Mul {
    open spec fn links(&self) -> Links {
        Links { prev: self.prev.deep_view(), next: self.next.deep_view() }
    }

    fn prev(&self) -> (id: Option<String>) {
        clone_link(&self.prev)
    }

    fn next(&self) -> (id: Option<String>) {
        clone_link(&self.next)
    }
}

/// The quotient of two operands.
#[derive(Debug, Clone, PartialEq)]
pub struct Divide {
    pub a: Option<Value>,
    pub b: Option<Value>,
    pub prev: Option<String>,
    pub next: Option<String>,
}

/// The mathematical model of [`Divide`].
pub ghost struct DivideView {
    pub a: Option<ValueView>,
    pub b: Option<ValueView>,
    pub prev: Option<Seq<char>>,
    pub next: Option<Seq<char>>,
}

impl DeepView for Divide {
    type V = DivideView;

    open spec fn deep_view(&self) -> DivideView {
        DivideView {
            a: self.a.deep_view(),
            b: self.b.deep_view(),
            prev: self.prev.deep_view(),
            next: self.next.deep_view(),
        }
    }
}

impl Block for Divide {
    open spec fn links(&self) -> Links {
        Links { prev: self.prev.deep_view(), next: self.next.deep_view() }
    }

    fn prev(&self) -> (id: Option<String>) {
        clone_link(&self.prev)
    }

    fn next(&self) -> (id: Option<String>) {
        clone_link(&self.next)
    }
}

/// A random number between two bounds.
#[derive(Debug, Clone, PartialEq)]
pub struct PickRandom {
    pub min: Option<Value>,
    pub max: Option<Value>,
    pub prev: Option<String>,
    pub next: Option<String>,
}

/// The mathematical model of [`PickRandom`].
pub ghost struct PickRandomView {
    pub min: Option<ValueView>,
    pub max: Option<ValueView>,
    pub prev: Option<Seq<char>>,
    pub next: Option<Seq<char>>,
}

impl DeepView for PickRandom {
    type V = PickRandomView;

    open spec fn deep_view(&self) -> PickRandomView {
        PickRandomView {
            min: self.min.deep_view(),
            max: self.max.deep_view(),
            prev: self.prev.deep_view(),
            next: self.next.deep_view(),
        }
    }
}

impl Block for PickRandom {
    open spec fn links(&self) -> Links {
        Links { prev: self.prev.deep_view(), next: self.next.deep_view() }
    }

    fn prev(&self) -> (id: Option<String>) {
        clone_link(&self.prev)
    }

    fn next(&self) -> (id: Option<String>) {
        clone_link(&self.next)
    }
}

/// Whether the first operand is greater than the second.
#[derive(Debug, Clone, PartialEq)]
pub struct GreaterThen {
    pub a: Option<Value>,
    pub b: Option<Value>,
    pub prev: Option<String>,
    pub next: Option<String>,
}

/// The mathematical model of [`GreaterThen`].
pub ghost struct GreaterThenView {
    pub a: Option<ValueView>,
    pub b: Option<ValueView>,
    pub prev: Option<Seq<char>>,
    pub next: Option<Seq<char>>,
}

impl DeepView for GreaterThen {
    type V = GreaterThenView;

    open spec fn deep_view(&self) -> GreaterThenView {
        GreaterThenView {
            a: self.a.deep_view(),
            b: self.b.deep_view(),
            prev: self.prev.deep_view(),
            next: self.next.deep_view(),
        }
    }
}

impl Block for GreaterThen {
    open spec fn links(&self) -> Links {
        Links { prev: self.prev.deep_view(), next: self.next.deep_view() }
    }

    fn prev(&self) -> (id: Option<String>) {
        clone_link(&self.prev)
    }

    fn next(&self) -> (id: Option<String>) {
        clone_link(&self.next)
    }
}

/// Whether the first operand is less than the second.
#[derive(Debug, Clone, PartialEq)]
pub struct LesserThen {
    pub a: Option<Value>,
    pub b: Option<Value>,
    pub prev: Option<String>,
    pub next: Option<String>,
}

/// The mathematical model of [`LesserThen`].
pub ghost struct LesserThenView {
    pub a: Option<ValueView>,
    pub b: Option<ValueView>,
    pub prev: Option<Seq<char>>,
    pub next: Option<Seq<char>>,
}

impl DeepView for LesserThen {
    type V = LesserThenView;

    open spec fn deep_view(&self) -> LesserThenView {
        LesserThenView {
            a: self.a.deep_view(),
            b: self.b.deep_view(),
            prev: self.prev.deep_view(),
            next: self.next.deep_view(),
        }
    }
}

impl Block for LesserThen {
    open spec fn links(&self) -> Links {
        Links { prev: self.prev.deep_view(), next: self.next.deep_view() }
    }

    fn prev(&self) -> (id: Option<String>) {
        clone_link(&self.prev)
    }

    fn next(&self) -> (id: Option<String>) {
        clone_link(&self.next)
    }
}

/// Whether two operands are equal.
#[derive(Debug, Clone, PartialEq)]
pub struct EqualTo {
    pub a: Option<Value>,
    pub b: Option<Value>,
    pub prev: Option<String>,
    pub next: Option<String>,
}

/// The mathematical model of [`EqualTo`].
pub ghost struct EqualToView {
    pub a: Option<ValueView>,
    pub b: Option<ValueView>,
    pub prev: Option<Seq<char>>,
    pub next: Option<Seq<char>>,
}

impl DeepView for EqualTo {
    type V = EqualToView;

    open spec fn deep_view(&self) -> EqualToView {
        EqualToView {
            a: self.a.deep_view(),
            b: self.b.deep_view(),
            prev: self.prev.deep_view(),
            next: self.next.deep_view(),
        }
    }
}

impl Block for EqualTo {
    open spec fn links(&self) -> Links {
        Links { prev: self.prev.deep_view(), next: self.next.deep_view() }
    }

    fn prev(&self) -> (id: Option<String>) {
        clone_link(&self.prev)
    }

    fn next(&self) -> (id: Option<String>) {
        clone_link(&self.next)
    }
}

/// Whether both operands hold.
#[derive(Debug, Clone, PartialEq)]
pub struct And {
    pub a: Option<Value>,
    pub b: Option<Value>,
    pub prev: Option<String>,
    pub next: Option<String>,
}

/// The mathematical model of [`And`].
pub ghost struct AndView {
    pub a: Option<ValueView>,
    pub b: Option<ValueView>,
    pub prev: Option<Seq<char>>,
    pub next: Option<Seq<char>>,
}

impl DeepView for And {
    type V = AndView;

    open spec fn deep_view(&self) -> AndView {
        AndView {
            a: self.a.deep_view(),
            b: self.b.deep_view(),
            prev: self.prev.deep_view(),
            next: self.next.deep_view(),
        }
    }
}

impl Block for And {
    open spec fn links(&self) -> Links {
        Links { prev: self.prev.deep_view(), next: self.next.deep_view() }
    }

    fn prev(&self) -> (id: Option<String>) {
        clone_link(&self.prev)
    }

    fn next(&self) -> (id: Option<String>) {
        clone_link(&self.next)
    }
}

/// Whether either operand holds.
#[derive(Debug, Clone, PartialEq)]
pub struct Or {
    pub a: Option<Value>,
    pub b: Option<Value>,
    pub prev: Option<String>,
    pub next: Option<String>,
}

/// The mathematical model of [`Or`].
pub ghost struct OrView {
    pub a: Option<ValueView>,
    pub b: Option<ValueView>,
    pub prev: Option<Seq<char>>,
    pub next: Option<Seq<char>>,
}

impl DeepView for Or {
    type V = OrView;

    open spec fn deep_view(&self) -> OrView {
        OrView {
            a: self.a.deep_view(),
            b: self.b.deep_view(),
            prev: self.prev.deep_view(),
            next: self.next.deep_view(),
        }
    }
}

impl Block for Or {
    open spec fn links(&self) -> Links {
        Links { prev: self.prev.deep_view(), next: self.next.deep_view() }
    }

    fn prev(&self) -> (id: Option<String>) {
        clone_link(&self.prev)
    }

    fn next(&self) -> (id: Option<String>) {
        clone_link(&self.next)
    }
}

/// Whether the operand does not hold.
#[derive(Debug, Clone, PartialEq)]
pub struct Not {
    pub a: Option<Value>,
    pub prev: Option<String>,
    pub next: Option<String>,
}

/// The mathematical model of [`Not`].
pub ghost struct NotView {
    pub a: Option<ValueView>,
    pub prev: Option<Seq<char>>,
    pub next: Option<Seq<char>>,
}

impl DeepView for Not {
    type V = NotView;

    open spec fn deep_view(&self) -> NotView {
        NotView { a: self.a.deep_view(), prev: self.prev.deep_view(), next: self.next.deep_view() }
    }
}

impl Block for Not {
    open spec fn links(&self) -> Links {
        Links { prev: self.prev.deep_view(), next: self.next.deep_view() }
    }

    fn prev(&self) -> (id: Option<String>) {
        clone_link(&self.prev)
    }

    fn next(&self) -> (id: Option<String>) {
        clone_link(&self.next)
    }
}

/// Two texts, one after the other.
#[derive(Debug, Clone, PartialEq)]
pub struct Join {
    pub a: Option<Value>,
    pub b: Option<Value>,
    pub prev: Option<String>,
    pub next: Option<String>,
}

/// The mathematical model of [`Join`].
pub ghost struct JoinView {
    pub a: Option<ValueView>,
    pub b: Option<ValueView>,
    pub prev: Option<Seq<char>>,
    pub next: Option<Seq<char>>,
}

impl DeepView for Join {
    type V = JoinView;

    open spec fn deep_view(&self) -> JoinView {
        JoinView {
            a: self.a.deep_view(),
            b: self.b.deep_view(),
            prev: self.prev.deep_view(),
            next: self.next.deep_view(),
        }
    }
}

impl Block for Join {
    open spec fn links(&self) -> Links {
        Links { prev: self.prev.deep_view(), next: self.next.deep_view() }
    }

    fn prev(&self) -> (id: Option<String>) {
        clone_link(&self.prev)
    }

    fn next(&self) -> (id: Option<String>) {
        clone_link(&self.next)
    }
}

/// The letter at an index of a text.
#[derive(Debug, Clone, PartialEq)]
pub struct LetterOf {
    pub index: Option<Value>,
    pub a: Option<Value>,
    pub prev: Option<String>,
    pub next: Option<String>,
}

/// The mathematical model of [`LetterOf`].
pub ghost struct LetterOfView {
    pub index: Option<ValueView>,
    pub a: Option<ValueView>,
    pub prev: Option<Seq<char>>,
    pub next: Option<Seq<char>>,
}

impl DeepView for LetterOf {
    type V = LetterOfView;

    open spec fn deep_view(&self) -> LetterOfView {
        LetterOfView {
            index: self.index.deep_view(),
            a: self.a.deep_view(),
            prev: self.prev.deep_view(),
            next: self.next.deep_view(),
        }
    }
}

impl Block for LetterOf {
    open spec fn links(&self) -> Links {
        Links { prev: self.prev.deep_view(), next: self.next.deep_view() }
    }

    fn prev(&self) -> (id: Option<String>) {
        clone_link(&self.prev)
    }

    fn next(&self) -> (id: Option<String>) {
        clone_link(&self.next)
    }
}

/// The length of a text.
#[derive(Debug, Clone, PartialEq)]
pub struct LengthOf {
    pub a: Option<Value>,
    pub prev: Option<String>,
    pub next: Option<String>,
}

/// The mathematical model of [`LengthOf`].
pub ghost struct LengthOfView {
    pub a: Option<ValueView>,
    pub prev: Option<Seq<char>>,
    pub next: Option<Seq<char>>,
}

impl DeepView for LengthOf {
    type V = LengthOfView;

    open spec fn deep_view(&self) -> LengthOfView {
        LengthOfView {
            a: self.a.deep_view(),
            prev: self.prev.deep_view(),
            next: self.next.deep_view(),
        }
    }
}

impl Block for LengthOf {
    open spec fn links(&self) -> Links {
        Links { prev: self.prev.deep_view(), next: self.next.deep_view() }
    }

    fn prev(&self) -> (id: Option<String>) {
        clone_link(&self.prev)
    }

    fn next(&self) -> (id: Option<String>) {
        clone_link(&self.next)
    }
}

/// Whether the first text holds the second.
#[derive(Debug, Clone, PartialEq)]
pub struct Contains {
    pub a: Option<Value>,
    pub b: Option<Value>,
    pub prev: Option<String>,
    pub next: Option<String>,
}

/// The mathematical model of [`Contains`].
pub ghost struct ContainsView {
    pub a: Option<ValueView>,
    pub b: Option<ValueView>,
    pub prev: Option<Seq<char>>,
    pub next: Option<Seq<char>>,
}

impl DeepView for Contains {
    type V = ContainsView;

    open spec fn deep_view(&self) -> ContainsView {
        ContainsView {
            a: self.a.deep_view(),
            b: self.b.deep_view(),
            prev: self.prev.deep_view(),
            next: self.next.deep_view(),
        }
    }
}

impl Block for Contains {
    open spec fn links(&self) -> Links {
        Links { prev: self.prev.deep_view(), next: self.next.deep_view() }
    }

    fn prev(&self) -> (id: Option<String>) {
        clone_link(&self.prev)
    }

    fn next(&self) -> (id: Option<String>) {
        clone_link(&self.next)
    }
}

/// The remainder of a division.
#[derive(Debug, Clone, PartialEq)]
pub struct Modulo {
    pub a: Option<Value>,
    pub b: Option<Value>,
    pub prev: Option<String>,
    pub next: Option<String>,
}

/// The mathematical model of [`Modulo`].
pub ghost struct ModuloView {
    pub a: Option<ValueView>,
    pub b: Option<ValueView>,
    pub prev: Option<Seq<char>>,
    pub next: Option<Seq<char>>,
}

impl DeepView for Modulo {
    type V = ModuloView;

    open spec fn deep_view(&self) -> ModuloView {
        ModuloView {
            a: self.a.deep_view(),
            b: self.b.deep_view(),
            prev: self.prev.deep_view(),
            next: self.next.deep_view(),
        }
    }
}

impl Block for Modulo {
    open spec fn links(&self) -> Links {
        Links { prev: self.prev.deep_view(), next: self.next.deep_view() }
    }

    fn prev(&self) -> (id: Option<String>) {
        clone_link(&self.prev)
    }

    fn next(&self) -> (id: Option<String>) {
        clone_link(&self.next)
    }
}

/// The operand rounded to the nearest integer.
#[derive(Debug, Clone, PartialEq)]
pub struct Round {
    pub a: Option<Value>,
    pub prev: Option<String>,
    pub next: Option<String>,
}

/// The mathematical model of [`Round`].
pub ghost struct RoundView {
    pub a: Option<ValueView>,
    pub prev: Option<Seq<char>>,
    pub next: Option<Seq<char>>,
}

impl DeepView for Round {
    type V = RoundView;

    open spec fn deep_view(&self) -> RoundView {
        RoundView {
            a: self.a.deep_view(),
            prev: self.prev.deep_view(),
            next: self.next.deep_view(),
        }
    }
}

impl Block for Round {
    open spec fn links(&self) -> Links {
        Links { prev: self.prev.deep_view(), next: self.next.deep_view() }
    }

    fn prev(&self) -> (id: Option<String>) {
        clone_link(&self.prev)
    }

    fn next(&self) -> (id: Option<String>) {
        clone_link(&self.next)
    }
}

/// A mathematical function of the operand.
#[derive(Debug, Clone, PartialEq)]
pub struct Absolute {
    pub a: Option<Value>,
    pub prev: Option<String>,
    pub next: Option<String>,
}

/// The mathematical model of [`Absolute`].
pub ghost struct AbsoluteView {
    pub a: Option<ValueView>,
    pub prev: Option<Seq<char>>,
    pub next: Option<Seq<char>>,
}

impl DeepView for Absolute {
    type V = AbsoluteView;

    open spec fn deep_view(&self) -> AbsoluteView {
        AbsoluteView {
            a: self.a.deep_view(),
            prev: self.prev.deep_view(),
            next: self.next.deep_view(),
        }
    }
}

impl Block for Absolute {
    open spec fn links(&self) -> Links {
        Links { prev: self.prev.deep_view(), next: self.next.deep_view() }
    }

    fn prev(&self) -> (id: Option<String>) {
        clone_link(&self.prev)
    }

    fn next(&self) -> (id: Option<String>) {
        clone_link(&self.next)
    }
}
} // verus!
