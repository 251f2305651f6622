//! Values, expressions and loops.
use vstd::prelude::*;

verus! {

/// Five.
pub fn five() -> (r: i32)
    ensures
        r == 5,
{
    5
}

/// The value of a block whose last expression is `x + 1`, with `x` three.
pub fn calling_a_func_is_an_expression() -> (r: i32)
    ensures
        r == 4,
{
    let y = {
        let x: i32 = 3;
        x + 1
    };
    y
}

/// Integer sum, product, division and remainder: 5 + 10, 4 * 30, 2 / 3 and
/// 43 % 5.
pub fn numeric_operations() -> (r: (i32, i32, i32, i32))
    ensures
        r == (15i32, 120i32, 0i32, 3i32),
{
    let sum: i32 = 5 + 10;
    let product: i32 = 4 * 30;
    let floored: i32 = 2 / 3;
    let remainder: i32 = 43 % 5;
    (sum, product, floored, remainder)
}

/// A value shadowed twice: five, then one more, then twice that in an inner
/// scope. Returns the inner and the outer value.
pub fn shadowing() -> (r: (i32, i32))
    ensures
        r == (12i32, 6i32),
{
    let x: i32 = 5;
    let x: i32 = x + 1;
    let inner = {
        let x: i32 = x * 2;
        x
    };
    (inner, x)
}

/// Counts up to ten and leaves the loop with twice the count.
pub fn returning_values_from_loops() -> (r: i32)
    ensures
        r == 20,
{
    let mut counter: i32 = 0;
    loop
        invariant_except_break
            0 <= counter < 10,
        ensures
            counter == 10,
        decreases 10 - counter,
    {
        counter = counter + 1;
        if counter == 10 {
            break ;
        }
    }
    counter * 2
}

/// Two nested loops; the outer counts up from zero and the inner counts
/// down from ten, leaving at nine or, once the count reaches two, leaving
/// both loops. Returns the final count.
pub fn break_out_of_loop_with_label() -> (r: i32)
    ensures
        r == 2,
{
    let mut count: i32 = 0;
    let mut done = false;
    while !done
        invariant
            0 <= count <= 2,
            done ==> count == 2,
        decreases (2 - count) * 2 + if done {
            0int
        } else {
            1int
        },
    {
        let mut remaining: i32 = 10;
        let mut leave_outer = false;
        loop
            invariant_except_break
                9 <= remaining <= 10,
                !leave_outer,
                remaining == 9 ==> count != 2,
            invariant
                0 <= count <= 2,
            ensures
                leave_outer <==> count == 2,
            decreases remaining,
        {
            if remaining == 9 {
                break ;
            }
            if count == 2 {
                leave_outer = true;
                break ;
            }
            remaining = remaining - 1;
        }
        if leave_outer {
            done = true;
        } else {
            count = count + 1;
        }
    }
    count
}

/// The numbers of a count down from three, before lift-off.
pub fn conditional_while_loops() -> (r: Vec<i32>)
    ensures
        r@ == seq![3i32, 2i32, 1i32],
{
    let mut number: i32 = 3;
    let mut shown: Vec<i32> = Vec::new();
    while number != 0
        invariant
            0 <= number <= 3,
            shown@ == Seq::new((3 - number) as nat, |i: int| (3 - i) as i32),
        decreases number,
    {
        shown.push(number);
        number = number - 1;
        assert(shown@ =~= Seq::new((3 - number) as nat, |i: int| (3 - i) as i32));
    }
    assert(shown@ =~= seq![3i32, 2i32, 1i32]);
    shown
}

/// Three characters: a letter, a mathematical symbol and an emoji.
pub fn character_type() -> (r: (char, char, char))
    ensures
        r == ('z', '\u{2124}', '\u{1f63b}'),
{
    let c = 'z';
    let z = '\u{2124}';
    let heart_eyed_cat = '\u{1f63b}';
    (c, z, heart_eyed_cat)
}

/// An array of one to five, and an array of five threes.
pub fn array() -> (r: ([i32; 5], [i32; 5]))
    ensures
        r.0@ == seq![1i32, 2, 3, 4, 5],
        r.1@ == seq![3i32, 3, 3, 3, 3],
{
    let a: [i32; 5] = [1, 2, 3, 4, 5];
    let b: [i32; 5] = [3, 3, 3, 3, 3];
    assert(a@ =~= seq![1i32, 2, 3, 4, 5]);
    assert(b@ =~= seq![3i32, 3, 3, 3, 3]);
    (a, b)
}

/// Five or six by a condition that holds: five.
pub fn ternary_operator() -> (r: i32)
    ensures
        r == 5,
{
    let condition = true;
    let number = if condition {
        5
    } else {
        6
    };
    number
}

} // verus!
