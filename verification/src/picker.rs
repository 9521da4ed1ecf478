use vstd::prelude::*;
use crate::text::views;

verus! {

/// What the picker is asked to show: the lines to choose from, the height of
/// its window and whether more than one line may be chosen.
#[derive(Debug, Clone, PartialEq, Eq)]
pub struct PickerRequest {
    pub items: Vec<String>,
    pub height: String,
    pub multi: bool,
}

/// What came back from the picker: whether the user left it without choosing,
/// and the lines that were chosen.
#[derive(Debug, Clone, PartialEq, Eq)]
pub struct PickerOutput {
    pub is_abort: bool,
    pub selected_items: Vec<String>,
}

/// What came back from the picker, as plain sequences.
pub struct PickerOutputView {
    pub is_abort: bool,
    pub selected_items: Seq<Seq<char>>,
}

impl View for PickerOutput {
    type V = PickerOutputView;

    open spec fn view(&self) -> PickerOutputView {
        PickerOutputView { is_abort: self.is_abort, selected_items: views(self.selected_items@) }
    }
}

/// The line to open after the picker has run: the first chosen line, and none
/// where the picker did not run to its end, was left, or gave no line.
pub open spec fn chosen(picked: Option<PickerOutputView>) -> Option<Seq<char>> {
    match picked {
        Some(output) => if !output.is_abort && output.selected_items.len() > 0 {
            Some(output.selected_items[0])
        } else {
            None
        },
        None => None,
    }
}

/// The line to open after the picker has run.
pub fn chosen_line(picked: &Option<PickerOutput>) -> (out: Option<&str>)
    ensures
        match out {
            Some(line) => chosen(picked_view(*picked)) == Some(line@),
            None => chosen(picked_view(*picked)) is None,
        },
{
    match picked {
        Some(output) => if !output.is_abort && output.selected_items.len() > 0 {
            Some(output.selected_items[0].as_str())
        } else {
            None
        },
        None => None,
    }
}

/// The view of what the picker gave, where it gave something.
pub open spec fn picked_view(picked: Option<PickerOutput>) -> Option<PickerOutputView> {
    match picked {
        Some(output) => Some(output@),
        None => None,
    }
}

} // verus!
