//! Resolving the main window among the labels that currently exist.
//!
//! The shell lists the labels of the live windows, in their enumeration
//! order, and the library picks which one is the main window: the label
//! "main" if present, else the label "pluely", else the first window of the
//! list. An empty list is the not-found failure.

use vstd::prelude::*;
use crate::errors::WindowError;

verus! {

/// Finds the first window whose label equals `target`.
pub fn find_label(labels: &Vec<String>, target: &str) -> (r: Option<usize>)
    ensures
        match r {
            Some(i) => i < labels@.len() && labels@[i as int]@ == target@ && (forall|j: int|
                0 <= j < i ==> labels@[j]@ != target@),
            None => forall|j: int| 0 <= j < labels@.len() ==> labels@[j]@ != target@,
        },
{
    let t = target.to_owned();
    let mut i: usize = 0;
    while i < labels.len()
        invariant
            i <= labels@.len(),
            t@ == target@,
            forall|j: int| 0 <= j < i ==> labels@[j]@ != target@,
        decreases labels@.len() - i,
    {
        if labels[i] == t {
            return Some(i);
        }
        i = i + 1;
    }
    None
}

/// Resolves the main window: the first window labeled "main", else the first
/// labeled "pluely", else the first window of the list; with no window at
/// all, the not-found error — and only then.
pub fn resolve_main_window(labels: &Vec<String>) -> (r: Result<usize, WindowError>)
    ensures
        labels@.len() == 0 <==> r == Err::<usize, WindowError>(WindowError::NoWindowFound),
        r matches Ok(i) ==> i < labels@.len(),
        (exists|j: int| 0 <= j < labels@.len() && labels@[j]@ == "main"@) ==> (r matches Ok(i)
            && labels@[i as int]@ == "main"@ && (forall|j: int|
            0 <= j < i ==> labels@[j]@ != "main"@)),
        ((forall|j: int| 0 <= j < labels@.len() ==> labels@[j]@ != "main"@) && (exists|j: int|
            0 <= j < labels@.len() && labels@[j]@ == "pluely"@)) ==> (r matches Ok(i) && labels@[
            i as int
        ]@ == "pluely"@ && (forall|j: int| 0 <= j < i ==> labels@[j]@ != "pluely"@)),
        ((forall|j: int|
            0 <= j < labels@.len() ==> labels@[j]@ != "main"@ && labels@[j]@ != "pluely"@)
            && labels@.len() > 0) ==> r == Ok::<usize, WindowError>(0),
{
    match find_label(labels, "main") {
        Some(i) => Ok(i),
        None => match find_label(labels, "pluely") {
            Some(i) => Ok(i),
            None => {
                if labels.len() > 0 {
                    Ok(0)
                } else {
                    Err(WindowError::NoWindowFound)
                }
            },
        },
    }
}

} // verus!
