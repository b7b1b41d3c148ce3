use vstd::prelude::*;
use vstd::string::StrSliceExecFns;

verus! {

/// `w` is the first word of `s`: the longest prefix of `s` without a space.
pub open spec fn is_first_word(s: Seq<char>, w: Seq<char>) -> bool {
    &&& w.len() <= s.len()
    &&& w == s.subrange(0, w.len() as int)
    &&& !w.contains(' ')
    &&& w.len() < s.len() ==> s[w.len() as int] == ' '
}

/// The characters of `s` before its first space; all of `s` if it has none.
pub fn first_word(s: &str) -> (r: &str)
    ensures
        is_first_word(s@, r@),
{
    let n = s.unicode_len();
    let mut i: usize = 0;
    while i < n
        invariant
            n == s@.len(),
            i <= n,
            forall|j: int| 0 <= j < i ==> s@[j] != ' ',
        decreases n - i,
    {
        if s.get_char(i) == ' ' {
            let w = s.substring_char(0, i);
            assert(!w@.contains(' ')) by {
                assert forall|j: int| 0 <= j < w@.len() implies w@[j] != ' ' by {
                    assert(w@[j] == s@[j]);
                }
            }
            return w;
        }
        i = i + 1;
    }
    let w = s.substring_char(0, n);
    assert(!w@.contains(' ')) by {
        assert forall|j: int| 0 <= j < w@.len() implies w@[j] != ' ' by {
            assert(w@[j] == s@[j]);
        }
    }
    w
}

/// The sum of a sequence of integers.
pub open spec fn sum_of(s: Seq<i32>) -> int
    decreases s.len(),
{
    if s.len() == 0 {
        0
    } else {
        sum_of(s.drop_last()) + s.last() as int
    }
}

/// Every running total of `s`, from the left, fits in an `i32`.
pub open spec fn partial_sums_fit(s: Seq<i32>) -> bool {
    forall|k: int|
        0 <= k <= s.len() ==> i32::MIN <= #[trigger] sum_of(s.take(k)) <= i32::MAX
}

/// The sum of `nums`; every running total must fit in an `i32`.
pub fn sum_slice(nums: &[i32]) -> (r: i32)
    requires
        partial_sums_fit(nums@),
    ensures
        r == sum_of(nums@),
{
    let mut sum: i32 = 0;
    let mut i: usize = 0;
    while i < nums.len()
        invariant
            i <= nums@.len(),
            partial_sums_fit(nums@),
            sum == sum_of(nums@.take(i as int)),
        decreases nums@.len() - i,
    {
        assert(nums@.take(i + 1).drop_last() =~= nums@.take(i as int));
        assert(i32::MIN <= sum_of(nums@.take(i + 1)) <= i32::MAX);
        sum = sum + nums[i];
        i = i + 1;
    }
    assert(nums@.take(i as int) =~= nums@);
    sum
}

} // verus!
