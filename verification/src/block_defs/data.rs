//! Data blocks: variables and lists.
use vstd::prelude::*;
use crate::blocks::{Block, Links};
use crate::raw::clone_link;
use crate::value::{Value, ValueView};

verus! {

/// Reads a variable.
#[derive(Debug, Clone, PartialEq)]
pub struct DataGetVariable {
    pub variable: Value,
    pub prev: Option<String>,
    pub next: Option<String>,
}

/// The mathematical model of [`DataGetVariable`].
pub ghost struct DataGetVariableView {
    pub variable: ValueView,
    pub prev: Option<Seq<char>>,
    pub next: Option<Seq<char>>,
}

impl DeepView for DataGetVariable {
    type V = DataGetVariableView;

    open spec fn deep_view(&self) -> DataGetVariableView {
        DataGetVariableView {
            variable: self.variable.deep_view(),
            prev: self.prev.deep_view(),
            next: self.next.deep_view(),
        }
    }
}

impl Block for DataGetVariable {
    open spec fn links(&self) -> Links {
        Links { prev: self.prev.deep_view(), next: self.next.deep_view() }
    }

    fn prev(&self) -> (id: Option<String>) {
        clone_link(&self.prev)
    }

    fn next(&self) -> (id: Option<String>) {
        clone_link(&self.next)
    }
}

/// Sets a variable to a value.
#[derive(Debug, Clone, PartialEq)]
pub struct DataSetVariableTo {
    pub variable: Value,
    pub value: Value,
    pub prev: Option<String>,
    pub next: Option<String>,
}

/// The mathematical model of [`DataSetVariableTo`].
pub ghost struct DataSetVariableToView {
    pub variable: ValueView,
    pub value: ValueView,
    pub prev: Option<Seq<char>>,
    pub next: Option<Seq<char>>,
}

impl DeepView for DataSetVariableTo {
    type V = DataSetVariableToView;

    open spec fn deep_view(&self) -> DataSetVariableToView {
        DataSetVariableToView {
            variable: self.variable.deep_view(),
            value: self.value.deep_view(),
            prev: self.prev.deep_view(),
            next: self.next.deep_view(),
        }
    }
}

impl Block for DataSetVariableTo {
    open spec fn links(&self) -> Links {
        Links { prev: self.prev.deep_view(), next: self.next.deep_view() }
    }

    fn prev(&self) -> (id: Option<String>) {
        clone_link(&self.prev)
    }

    fn next(&self) -> (id: Option<String>) {
        clone_link(&self.next)
    }
}

/// Adds a value to a variable.
#[derive(Debug, Clone, PartialEq)]
pub struct DataChangeVariableBy {
    pub variable: Value,
    pub value: Value,
    pub prev: Option<String>,
    pub next: Option<String>,
}

/// The mathematical model of [`DataChangeVariableBy`].
pub ghost struct DataChangeVariableByView {
    pub variable: ValueView,
    pub value: ValueView,
    pub prev: Option<Seq<char>>,
    pub next: Option<Seq<char>>,
}

impl DeepView for DataChangeVariableBy {
    type V = DataChangeVariableByView;

    open spec fn deep_view(&self) -> DataChangeVariableByView {
        DataChangeVariableByView {
            variable: self.variable.deep_view(),
            value: self.value.deep_view(),
            prev: self.prev.deep_view(),
            next: self.next.deep_view(),
        }
    }
}

impl Block for DataChangeVariableBy {
    open spec fn links(&self) -> Links {
        Links { prev: self.prev.deep_view(), next: self.next.deep_view() }
    }

    fn prev(&self) -> (id: Option<String>) {
        clone_link(&self.prev)
    }

    fn next(&self) -> (id: Option<String>) {
        clone_link(&self.next)
    }
}

/// Shows a variable on the stage.
#[derive(Debug, Clone, PartialEq)]
pub struct DataShowVariable {
    pub variable: Value,
    pub prev: Option<String>,
    pub next: Option<String>,
}

/// The mathematical model of [`DataShowVariable`].
pub ghost struct DataShowVariableView {
    pub variable: ValueView,
    pub prev: Option<Seq<char>>,
    pub next: Option<Seq<char>>,
}

impl DeepView for DataShowVariable {
    type V = DataShowVariableView;

    open spec fn deep_view(&self) -> DataShowVariableView {
        DataShowVariableView {
            variable: self.variable.deep_view(),
            prev: self.prev.deep_view(),
            next: self.next.deep_view(),
        }
    }
}

impl Block for DataShowVariable {
    open spec fn links(&self) -> Links {
        Links { prev: self.prev.deep_view(), next: self.next.deep_view() }
    }

    fn prev(&self) -> (id: Option<String>) {
        clone_link(&self.prev)
    }

    fn next(&self) -> (id: Option<String>) {
        clone_link(&self.next)
    }
}

/// Hides a variable from the stage.
#[derive(Debug, Clone, PartialEq)]
pub struct DataHideVariable {
    pub variable: Value,
    pub prev: Option<String>,
    pub next: Option<String>,
}

/// The mathematical model of [`DataHideVariable`].
pub ghost struct DataHideVariableView {
    pub variable: ValueView,
    pub prev: Option<Seq<char>>,
    pub next: Option<Seq<char>>,
}

impl DeepView for DataHideVariable {
    type V = DataHideVariableView;

    open spec fn deep_view(&self) -> DataHideVariableView {
        DataHideVariableView {
            variable: self.variable.deep_view(),
            prev: self.prev.deep_view(),
            next: self.next.deep_view(),
        }
    }
}

impl Block for DataHideVariable {
    open spec fn links(&self) -> Links {
        Links { prev: self.prev.deep_view(), next: self.next.deep_view() }
    }

    fn prev(&self) -> (id: Option<String>) {
        clone_link(&self.prev)
    }

    fn next(&self) -> (id: Option<String>) {
        clone_link(&self.next)
    }
}

/// Reads a whole list.
#[derive(Debug, Clone, PartialEq)]
pub struct DataListContents {
    pub variable: Value,
    pub prev: Option<String>,
    pub next: Option<String>,
}

/// The mathematical model of [`DataListContents`].
pub ghost struct DataListContentsView {
    pub variable: ValueView,
    pub prev: Option<Seq<char>>,
    pub next: Option<Seq<char>>,
}

impl DeepView for DataListContents {
    type V = DataListContentsView;

    open spec fn deep_view(&self) -> DataListContentsView {
        DataListContentsView {
            variable: self.variable.deep_view(),
            prev: self.prev.deep_view(),
            next: self.next.deep_view(),
        }
    }
}

impl Block for DataListContents {
    open spec fn links(&self) -> Links {
        Links { prev: self.prev.deep_view(), next: self.next.deep_view() }
    }

    fn prev(&self) -> (id: Option<String>) {
        clone_link(&self.prev)
    }

    fn next(&self) -> (id: Option<String>) {
        clone_link(&self.next)
    }
}

/// Stands for every index of a list.
#[derive(Debug, Clone, PartialEq)]
pub struct DataListIndexAll {
    pub prev: Option<String>,
    pub next: Option<String>,
}

impl DeepView for DataListIndexAll {
    type V = Links;

    open spec fn deep_view(&self) -> Links {
        Links { prev: self.prev.deep_view(), next: self.next.deep_view() }
    }
}

impl Block for DataListIndexAll {
    open spec fn links(&self) -> Links {
        Links { prev: self.prev.deep_view(), next: self.next.deep_view() }
    }

    fn prev(&self) -> (id: Option<String>) {
        clone_link(&self.prev)
    }

    fn next(&self) -> (id: Option<String>) {
        clone_link(&self.next)
    }
}

/// Stands for a random index of a list.
#[derive(Debug, Clone, PartialEq)]
pub struct DataListIndexAllRandom {
    pub prev: Option<String>,
    pub next: Option<String>,
}

impl DeepView for DataListIndexAllRandom {
    type V = Links;

    open spec fn deep_view(&self) -> Links {
        Links { prev: self.prev.deep_view(), next: self.next.deep_view() }
    }
}

impl Block for DataListIndexAllRandom {
    open spec fn links(&self) -> Links {
        Links { prev: self.prev.deep_view(), next: self.next.deep_view() }
    }

    fn prev(&self) -> (id: Option<String>) {
        clone_link(&self.prev)
    }

    fn next(&self) -> (id: Option<String>) {
        clone_link(&self.next)
    }
}

/// Appends an item to a list.
#[derive(Debug, Clone, PartialEq)]
pub struct DataAddToList {
    pub item: Value,
    pub list: Value,
    pub prev: Option<String>,
    pub next: Option<String>,
}

/// The mathematical model of [`DataAddToList`].
pub ghost struct DataAddToListView {
    pub item: ValueView,
    pub list: ValueView,
    pub prev: Option<Seq<char>>,
    pub next: Option<Seq<char>>,
}

impl DeepView for DataAddToList {
    type V = DataAddToListView;

    open spec fn deep_view(&self) -> DataAddToListView {
        DataAddToListView {
            item: self.item.deep_view(),
            list: self.list.deep_view(),
            prev: self.prev.deep_view(),
            next: self.next.deep_view(),
        }
    }
}

impl Block for DataAddToList {
    open spec fn links(&self) -> Links {
        Links { prev: self.prev.deep_view(), next: self.next.deep_view() }
    }

    fn prev(&self) -> (id: Option<String>) {
        clone_link(&self.prev)
    }

    fn next(&self) -> (id: Option<String>) {
        clone_link(&self.next)
    }
}

/// Removes the item at an index of a list.
#[derive(Debug, Clone, PartialEq)]
pub struct DataDeleteOfList {
    pub item: Value,
    pub list: Value,
    pub prev: Option<String>,
    pub next: Option<String>,
}

/// The mathematical model of [`DataDeleteOfList`].
pub ghost struct DataDeleteOfListView {
    pub item: ValueView,
    pub list: ValueView,
    pub prev: Option<Seq<char>>,
    pub next: Option<Seq<char>>,
}

impl DeepView for DataDeleteOfList {
    type V = DataDeleteOfListView;

    open spec fn deep_view(&self) -> DataDeleteOfListView {
        DataDeleteOfListView {
            item: self.item.deep_view(),
            list: self.list.deep_view(),
            prev: self.prev.deep_view(),
            next: self.next.deep_view(),
        }
    }
}

impl Block for DataDeleteOfList {
    open spec fn links(&self) -> Links {
        Links { prev: self.prev.deep_view(), next: self.next.deep_view() }
    }

    fn prev(&self) -> (id: Option<String>) {
        clone_link(&self.prev)
    }

    fn next(&self) -> (id: Option<String>) {
        clone_link(&self.next)
    }
}

/// Empties a list.
#[derive(Debug, Clone, PartialEq)]
pub struct DataDeleteAllOfList {
    pub list: Value,
    pub prev: Option<String>,
    pub next: Option<String>,
}

/// The mathematical model of [`DataDeleteAllOfList`].
pub ghost struct DataDeleteAllOfListView {
    pub list: ValueView,
    pub prev: Option<Seq<char>>,
    pub next: Option<Seq<char>>,
}

impl DeepView for DataDeleteAllOfList {
    type V = DataDeleteAllOfListView;

    open spec fn deep_view(&self) -> DataDeleteAllOfListView {
        DataDeleteAllOfListView {
            list: self.list.deep_view(),
            prev: self.prev.deep_view(),
            next: self.next.deep_view(),
        }
    }
}

impl Block for DataDeleteAllOfList {
    open spec fn links(&self) -> Links {
        Links { prev: self.prev.deep_view(), next: self.next.deep_view() }
    }

    fn prev(&self) -> (id: Option<String>) {
        clone_link(&self.prev)
    }

    fn next(&self) -> (id: Option<String>) {
        clone_link(&self.next)
    }
}

/// Inserts an item at an index of a list.
#[derive(Debug, Clone, PartialEq)]
pub struct DataInsertAtList {
    pub item: Value,
    pub index: Value,
    pub list: Value,
    pub prev: Option<String>,
    pub next: Option<String>,
}

/// The mathematical model of [`DataInsertAtList`].
pub ghost struct DataInsertAtListView {
    pub item: ValueView,
    pub index: ValueView,
    pub list: ValueView,
    pub prev: Option<Seq<char>>,
    pub next: Option<Seq<char>>,
}

impl DeepView for DataInsertAtList {
    type V = DataInsertAtListView;

    open spec fn deep_view(&self) -> DataInsertAtListView {
        DataInsertAtListView {
            item: self.item.deep_view(),
            index: self.index.deep_view(),
            list: self.list.deep_view(),
            prev: self.prev.deep_view(),
            next: self.next.deep_view(),
        }
    }
}

impl Block for DataInsertAtList {
    open spec fn links(&self) -> Links {
        Links { prev: self.prev.deep_view(), next: self.next.deep_view() }
    }

    fn prev(&self) -> (id: Option<String>) {
        clone_link(&self.prev)
    }

    fn next(&self) -> (id: Option<String>) {
        clone_link(&self.next)
    }
}

/// Replaces the item at an index of a list.
#[derive(Debug, Clone, PartialEq)]
pub struct DataReplaceItemOfList {
    pub item: Value,
    pub index: Value,
    pub list: Value,
    pub prev: Option<String>,
    pub next: Option<String>,
}

/// The mathematical model of [`DataReplaceItemOfList`].
pub ghost struct DataReplaceItemOfListView {
    pub item: ValueView,
    pub index: ValueView,
    pub list: ValueView,
    pub prev: Option<Seq<char>>,
    pub next: Option<Seq<char>>,
}

impl DeepView for DataReplaceItemOfList {
    type V = DataReplaceItemOfListView;

    open spec fn deep_view(&self) -> DataReplaceItemOfListView {
        DataReplaceItemOfListView {
            item: self.item.deep_view(),
            index: self.index.deep_view(),
            list: self.list.deep_view(),
            prev: self.prev.deep_view(),
            next: self.next.deep_view(),
        }
    }
}

impl Block for DataReplaceItemOfList {
    open spec fn links(&self) -> Links {
        Links { prev: self.prev.deep_view(), next: self.next.deep_view() }
    }

    fn prev(&self) -> (id: Option<String>) {
        clone_link(&self.prev)
    }

    fn next(&self) -> (id: Option<String>) {
        clone_link(&self.next)
    }
}

/// Reads the item at an index of a list.
#[derive(Debug, Clone, PartialEq)]
pub struct DataItemOfList {
    pub index: Value,
    pub list: Value,
    pub prev: Option<String>,
    pub next: Option<String>,
}

/// The mathematical model of [`DataItemOfList`].
pub ghost struct DataItemOfListView {
    pub index: ValueView,
    pub list: ValueView,
    pub prev: Option<Seq<char>>,
    pub next: Option<Seq<char>>,
}

impl DeepView for DataItemOfList {
    type V = DataItemOfListView;

    open spec fn deep_view(&self) -> DataItemOfListView {
        DataItemOfListView {
            index: self.index.deep_view(),
            list: self.list.deep_view(),
            prev: self.prev.deep_view(),
            next: self.next.deep_view(),
        }
    }
}

impl Block for DataItemOfList {
    open spec fn links(&self) -> Links {
        Links { prev: self.prev.deep_view(), next: self.next.deep_view() }
    }

    fn prev(&self) -> (id: Option<String>) {
        clone_link(&self.prev)
    }

    fn next(&self) -> (id: Option<String>) {
        clone_link(&self.next)
    }
}

/// Reads the length of a list.
#[derive(Debug, Clone, PartialEq)]
pub struct DataLengthOfList {
    pub list: Value,
    pub prev: Option<String>,
    pub next: Option<String>,
}

/// The mathematical model of [`DataLengthOfList`].
pub ghost struct DataLengthOfListView {
    pub list: ValueView,
    pub prev: Option<Seq<char>>,
    pub next: Option<Seq<char>>,
}

impl DeepView for DataLengthOfList {
    type V = DataLengthOfListView;

    open spec fn deep_view(&self) -> DataLengthOfListView {
        DataLengthOfListView {
            list: self.list.deep_view(),
            prev: self.prev.deep_view(),
            next: self.next.deep_view(),
        }
    }
}

impl Block for DataLengthOfList {
    open spec fn links(&self) -> Links {
        Links { prev: self.prev.deep_view(), next: self.next.deep_view() }
    }

    fn prev(&self) -> (id: Option<String>) {
        clone_link(&self.prev)
    }

    fn next(&self) -> (id: Option<String>) {
        clone_link(&self.next)
    }
}

/// Tells whether a list holds an item.
#[derive(Debug, Clone, PartialEq)]
pub struct DataListContainsItem {
    pub input: Value,
    pub list: Value,
    pub prev: Option<String>,
    pub next: Option<String>,
}

/// The mathematical model of [`DataListContainsItem`].
pub ghost struct DataListContainsItemView {
    pub input: ValueView,
    pub list: ValueView,
    pub prev: Option<Seq<char>>,
    pub next: Option<Seq<char>>,
}

impl DeepView for DataListContainsItem {
    type V = DataListContainsItemView;

    open spec fn deep_view(&self) -> DataListContainsItemView {
        DataListContainsItemView {
            input: self.input.deep_view(),
            list: self.list.deep_view(),
            prev: self.prev.deep_view(),
            next: self.next.deep_view(),
        }
    }
}

impl Block for DataListContainsItem {
    open spec fn links(&self) -> Links {
        Links { prev: self.prev.deep_view(), next: self.next.deep_view() }
    }

    fn prev(&self) -> (id: Option<String>) {
        clone_link(&self.prev)
    }

    fn next(&self) -> (id: Option<String>) {
        clone_link(&self.next)
    }
}

/// Shows a list on the stage.
#[derive(Debug, Clone, PartialEq)]
pub struct DataShowList {
    pub list: Value,
    pub prev: Option<String>,
    pub next: Option<String>,
}

/// The mathematical model of [`DataShowList`].
pub ghost struct DataShowListView {
    pub list: ValueView,
    pub prev: Option<Seq<char>>,
    pub next: Option<Seq<char>>,
}

impl DeepView for DataShowList {
    type V = DataShowListView;

    open spec fn deep_view(&self) -> DataShowListView {
        DataShowListView {
            list: self.list.deep_view(),
            prev: self.prev.deep_view(),
            next: self.next.deep_view(),
        }
    }
}

impl Block for DataShowList {
    open spec fn links(&self) -> Links {
        Links { prev: self.prev.deep_view(), next: self.next.deep_view() }
    }

    fn prev(&self) -> (id: Option<String>) {
        clone_link(&self.prev)
    }

    fn next(&self) -> (id: Option<String>) {
        clone_link(&self.next)
    }
}

/// Hides a list from the stage.
#[derive(Debug, Clone, PartialEq)]
pub struct DataHideList {
    pub list: Value,
    pub prev: Option<String>,
    pub next: Option<String>,
}

/// The mathematical model of [`DataHideList`].
pub ghost struct DataHideListView {
    pub list: ValueView,
    pub prev: Option<Seq<char>>,
    pub next: Option<Seq<char>>,
}

impl DeepView for DataHideList {
    type V = DataHideListView;

    open spec fn deep_view(&self) -> DataHideListView {
        DataHideListView {
            list: self.list.deep_view(),
            prev: self.prev.deep_view(),
            next: self.next.deep_view(),
        }
    }
}

impl Block for DataHideList {
    open spec fn links(&self) -> Links {
        Links { prev: self.prev.deep_view(), next: self.next.deep_view() }
    }

    fn prev(&self) -> (id: Option<String>) {
        clone_link(&self.prev)
    }

    fn next(&self) -> (id: Option<String>) {
        clone_link(&self.next)
    }
}
} // verus!
