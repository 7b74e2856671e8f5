//! Element-wise helpers over whole sample buffers.
//!
//! Block-based hosts hand audio around as buffers; these helpers fill, copy,
//! offset, sum, scale and multiply them element by element.  The arithmetic
//! ones work on `i64` samples and ask callers to keep every element-wise
//! result within range, as the mixing code does.

use vstd::prelude::*;

verus! {

/// Fill the whole buffer with one value.
pub fn set<T: Copy>(arr: &mut Vec<T>, val: T)
    ensures
        final(arr)@.len() == old(arr)@.len(),
        forall|i: int| 0 <= i < final(arr)@.len() ==> final(arr)@[i] == val,
{
    let n: usize = arr.len();
    let mut i: usize = 0;
    while i < n
        invariant
            i <= n,
            arr@.len() == n,
            forall|j: int| 0 <= j < i ==> arr@[j] == val,
        decreases n - i,
    {
        arr[i] = val;
        i = i + 1;
    }
}

/// Copy the second buffer over the first, element by element, up to the
/// shorter of the two lengths.
pub fn copy<T: Copy>(arr1: &mut Vec<T>, arr2: &Vec<T>)
    ensures
        final(arr1)@.len() == old(arr1)@.len(),
        forall|i: int|
            0 <= i < final(arr1)@.len() ==> final(arr1)@[i] == (if i < arr2@.len() {
                arr2@[i]
            } else {
                old(arr1)@[i]
            }),
{
    let n: usize = if arr1.len() < arr2.len() {
        arr1.len()
    } else {
        arr2.len()
    };
    let mut i: usize = 0;
    while i < n
        invariant
            i <= n,
            arr1@.len() == old(arr1)@.len(),
            n <= arr1@.len(),
            n <= arr2@.len(),
            forall|j: int| 0 <= j < i ==> arr1@[j] == arr2@[j],
            forall|j: int| i <= j < arr1@.len() ==> arr1@[j] == old(arr1)@[j],
        decreases n - i,
    {
        arr1[i] = arr2[i];
        i = i + 1;
    }
}

/// Add one value to every element.
pub fn add_c(arr: &mut Vec<i64>, val: i64)
    requires
        forall|i: int|
            0 <= i < old(arr)@.len() ==> i64::MIN <= #[trigger] old(arr)@[i] + val <= i64::MAX,
    ensures
        final(arr)@.len() == old(arr)@.len(),
        forall|i: int| 0 <= i < final(arr)@.len() ==> final(arr)@[i] == old(arr)@[i] + val,
{
    let n: usize = arr.len();
    let mut i: usize = 0;
    while i < n
        invariant
            i <= n,
            arr@.len() == n,
            n == old(arr)@.len(),
            forall|j: int| 0 <= j < i ==> arr@[j] == old(arr)@[j] + val,
            forall|j: int| i <= j < n ==> arr@[j] == old(arr)@[j],
            forall|j: int| 0 <= j < n ==> i64::MIN <= #[trigger] old(arr)@[j] + val <= i64::MAX,
        decreases n - i,
    {
        let x: i64 = arr[i];
        arr[i] = x + val;
        i = i + 1;
    }
}

/// Add the second buffer to the first, element by element, up to the shorter
/// of the two lengths.
pub fn add(arr1: &mut Vec<i64>, arr2: &Vec<i64>)
    requires
        forall|i: int|
            0 <= i < old(arr1)@.len() && i < arr2@.len() ==> i64::MIN <= #[trigger] old(arr1)@[i]
                + arr2@[i] <= i64::MAX,
    ensures
        final(arr1)@.len() == old(arr1)@.len(),
        forall|i: int|
            0 <= i < final(arr1)@.len() ==> final(arr1)@[i] == (if i < arr2@.len() {
                old(arr1)@[i] + arr2@[i]
            } else {
                old(arr1)@[i] as int
            }),
{
    let n: usize = if arr1.len() < arr2.len() {
        arr1.len()
    } else {
        arr2.len()
    };
    let mut i: usize = 0;
    while i < n
        invariant
            i <= n,
            arr1@.len() == old(arr1)@.len(),
            n <= arr1@.len(),
            n <= arr2@.len(),
            forall|j: int| 0 <= j < i ==> arr1@[j] == old(arr1)@[j] + arr2@[j],
            forall|j: int| i <= j < arr1@.len() ==> arr1@[j] == old(arr1)@[j],
            forall|j: int|
                0 <= j < n ==> i64::MIN <= #[trigger] old(arr1)@[j] + arr2@[j] <= i64::MAX,
        decreases n - i,
    {
        let x: i64 = arr1[i];
        let y: i64 = arr2[i];
        arr1[i] = x + y;
        i = i + 1;
    }
}

/// Multiply every element by one value.
pub fn mul_c(arr: &mut Vec<i64>, val: i64)
    requires
        forall|i: int|
            0 <= i < old(arr)@.len() ==> i64::MIN <= #[trigger] old(arr)@[i] * val <= i64::MAX,
    ensures
        final(arr)@.len() == old(arr)@.len(),
        forall|i: int| 0 <= i < final(arr)@.len() ==> final(arr)@[i] == old(arr)@[i] * val,
{
    let n: usize = arr.len();
    let mut i: usize = 0;
    while i < n
        invariant
            i <= n,
            arr@.len() == n,
            n == old(arr)@.len(),
            forall|j: int| 0 <= j < i ==> arr@[j] == old(arr)@[j] * val,
            forall|j: int| i <= j < n ==> arr@[j] == old(arr)@[j],
            forall|j: int| 0 <= j < n ==> i64::MIN <= #[trigger] old(arr)@[j] * val <= i64::MAX,
        decreases n - i,
    {
        let x: i64 = arr[i];
        arr[i] = x * val;
        i = i + 1;
    }
}

/// Multiply the first buffer by the second, element by element, up to the
/// shorter of the two lengths.
pub fn mul(arr1: &mut Vec<i64>, arr2: &Vec<i64>)
    requires
        forall|i: int|
            0 <= i < old(arr1)@.len() && i < arr2@.len() ==> i64::MIN <= #[trigger] old(arr1)@[i]
                * arr2@[i] <= i64::MAX,
    ensures
        final(arr1)@.len() == old(arr1)@.len(),
        forall|i: int|
            0 <= i < final(arr1)@.len() ==> final(arr1)@[i] == (if i < arr2@.len() {
                old(arr1)@[i] * arr2@[i]
            } else {
                old(arr1)@[i] as int
            }),
{
    let n: usize = if arr1.len() < arr2.len() {
        arr1.len()
    } else {
        arr2.len()
    };
    let mut i: usize = 0;
    while i < n
        invariant
            i <= n,
            arr1@.len() == old(arr1)@.len(),
            n <= arr1@.len(),
            n <= arr2@.len(),
            forall|j: int| 0 <= j < i ==> arr1@[j] == old(arr1)@[j] * arr2@[j],
            forall|j: int| i <= j < arr1@.len() ==> arr1@[j] == old(arr1)@[j],
            forall|j: int|
                0 <= j < n ==> i64::MIN <= #[trigger] old(arr1)@[j] * arr2@[j] <= i64::MAX,
        decreases n - i,
    {
        let x: i64 = arr1[i];
        let y: i64 = arr2[i];
        arr1[i] = x * y;
        i = i + 1;
    }
}

} // verus!
