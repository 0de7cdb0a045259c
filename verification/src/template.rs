//! A safety check for capability templates.
//!
//! `term`'s expansion interpreter has panic paths on arbitrary template
//! bytes: `%p0` indexes the parameter array out of range, `%/` and `%m`
//! divide by a value popped from the stack, and `%+`, `%*`, a repeated `%i`
//! or an unguarded `%-` can overflow the interpreter's arithmetic. The
//! check admits the rest of the expansion language, which expands without
//! any panic path: literal bytes, `%%`, the plain format escapes `%d` `%c`
//! `%x` `%o` `%X` `%s`, the conditionals `%?` `%t` `%e` `%;`, the
//! comparisons `%<` `%>` `%=` `%A` `%O` and unaries `%!` `%~`, parameters
//! `%p1`..`%p9`, integer constants `%{n}` (parsed with checked arithmetic),
//! character constants `%'c'`, the variables `%P` and `%g` with a letter
//! name, one `%i` (it increments the first two parameters, so parameters
//! must sit below `i32::MAX`), and `%-` immediately after two pushed
//! operands (a parameter or a constant, both non-negative, whose
//! difference cannot overflow). Format flag, width and precision runs stay
//! out: a precision parsed up to `usize::MAX` meets an unchecked `+ 1` in
//! the interpreter's number formatting.

use vstd::prelude::*;

verus! {

/// The escapes of fixed two-byte form that the interpreter handles without
/// any panic path, whatever the stack holds.
pub open spec fn plain_escape(b: u8) -> bool {
    b == 37 || b == 100 || b == 99 || b == 120 || b == 111 || b == 88
        || b == 115  // '%' 'd' 'c' 'x' 'o' 'X' 's'
        || b == 63 || b == 116 || b == 101 || b == 59  // '?' 't' 'e' ';'
        || b == 60 || b == 62 || b == 61 || b == 65 || b == 79  // '<' '>' '=' 'A' 'O'
        || b == 33 || b == 126  // '!' '~'
}

/// An ASCII letter, the variable names `%P` and `%g` accept.
pub open spec fn letter(b: u8) -> bool {
    (65 <= b <= 90) || (97 <= b <= 122)
}

/// The template holds only the safe escapes, with `incr_left` uses of `%i`
/// still allowed and `pushes` immediately preceding parameter or constant
/// pushes available as `%-` operands.
pub open spec fn safe_template_rec(t: Seq<u8>, incr_left: int, pushes: int) -> bool
    decreases t.len(), 1int,
{
    if t.len() == 0 {
        true
    } else if t[0] != 37 {  // not '%': a literal byte
        safe_template_rec(t.skip(1), incr_left, 0)
    } else if t.len() < 2 {
        false
    } else if plain_escape(t[1]) {
        safe_template_rec(t.skip(2), incr_left, 0)
    } else if t[1] == 105 {  // "%i"
        incr_left > 0 && safe_template_rec(t.skip(2), incr_left - 1, 0)
    } else if t[1] == 45 {  // "%-": only straight after two pushes
        pushes >= 2 && safe_template_rec(t.skip(2), incr_left, 0)
    } else if t[1] == 112 {  // "%p1".."%p9"
        t.len() >= 3 && 49 <= t[2] <= 57 && safe_template_rec(
            t.skip(3),
            incr_left,
            if pushes >= 2 { 2int } else { pushes + 1 },
        )
    } else if t[1] == 80 || t[1] == 103 {  // "%P", "%g" with a letter name
        t.len() >= 3 && letter(t[2]) && safe_template_rec(t.skip(3), incr_left, 0)
    } else if t[1] == 39 {  // "%'c'"
        t.len() >= 4 && t[3] == 39 && safe_template_rec(t.skip(4), incr_left, 0)
    } else if t[1] == 123 {  // "%{n}"
        safe_int_constant(t.skip(2), incr_left, pushes)
    } else {
        false
    }
}

/// The tail of an integer constant: digits up to a closing brace, then the
/// rest of the template; the constant counts as a push.
pub open spec fn safe_int_constant(t: Seq<u8>, incr_left: int, pushes: int) -> bool
    decreases t.len(), 0int,
{
    if t.len() == 0 {
        false
    } else if t[0] == 125 {  // '}'
        safe_template_rec(t.skip(1), incr_left, if pushes >= 2 { 2int } else { pushes + 1 })
    } else if 48 <= t[0] <= 57 {  // a digit
        safe_int_constant(t.skip(1), incr_left, pushes)
    } else {
        false
    }
}

/// The template holds only the escapes the interpreter expands without any
/// panic path, with `%i` at most once.
pub open spec fn safe_template(t: Seq<u8>) -> bool {
    safe_template_rec(t, 1, 0)
}

/// Every parameter is non-negative — so no admitted subtraction can
/// overflow — and sits strictly below `i32::MAX`, so the single `%i`
/// cannot overflow it either.
pub open spec fn params_bounded(ps: Seq<i32>) -> bool {
    forall|i: int| 0 <= i < ps.len() ==> 0 <= #[trigger] ps[i] < i32::MAX
}

/// Decides `safe_template` for the given template bytes.
pub fn is_safe_template(t: &Vec<u8>) -> (r: bool)
    ensures
        r == safe_template(t@),
{
    let n: usize = t.len();
    let mut i: usize = 0;
    let mut incr_used: bool = false;
    let mut pushes: u8 = 0;
    proof {
        assert(t@.skip(0) =~= t@);
    }
    while i < n
        invariant
            i <= n,
            n == t@.len(),
            pushes <= 2,
            safe_template(t@) == safe_template_rec(
                t@.skip(i as int),
                if incr_used { 0int } else { 1int },
                pushes as int,
            ),
        decreases n - i,
    {
        let c: u8 = t[i];
        if c != 37 {
            proof {
                assert(t@.skip(i as int).skip(1) =~= t@.skip(i as int + 1));
            }
            i = i + 1;
            pushes = 0;
        } else if i + 1 >= n {
            return false;
        } else {
            let e: u8 = t[i + 1];
            let plain: bool = e == 37 || e == 100 || e == 99 || e == 120 || e == 111 || e == 88
                || e == 115 || e == 63 || e == 116 || e == 101 || e == 59 || e == 60 || e == 62
                || e == 61 || e == 65 || e == 79 || e == 33 || e == 126;
            if plain {
                proof {
                    assert(t@.skip(i as int).skip(2) =~= t@.skip(i as int + 2));
                }
                i = i + 2;
                pushes = 0;
            } else if e == 105 {
                if incr_used {
                    return false;
                }
                proof {
                    assert(t@.skip(i as int).skip(2) =~= t@.skip(i as int + 2));
                }
                incr_used = true;
                i = i + 2;
                pushes = 0;
            } else if e == 45 {
                if pushes < 2 {
                    return false;
                }
                proof {
                    assert(t@.skip(i as int).skip(2) =~= t@.skip(i as int + 2));
                }
                i = i + 2;
                pushes = 0;
            } else if e == 112 {
                if i + 2 >= n {
                    return false;
                }
                let d: u8 = t[i + 2];
                if d < 49 || d > 57 {
                    return false;
                }
                proof {
                    assert(t@.skip(i as int).skip(3) =~= t@.skip(i as int + 3));
                }
                i = i + 3;
                if pushes < 2 {
                    pushes = pushes + 1;
                }
            } else if e == 80 || e == 103 {
                if i + 2 >= n {
                    return false;
                }
                let d: u8 = t[i + 2];
                if !((65 <= d && d <= 90) || (97 <= d && d <= 122)) {
                    return false;
                }
                proof {
                    assert(t@.skip(i as int).skip(3) =~= t@.skip(i as int + 3));
                }
                i = i + 3;
                pushes = 0;
            } else if e == 39 {
                if n - i < 4 {
                    return false;
                }
                let d: u8 = t[i + 3];
                if d != 39 {
                    return false;
                }
                proof {
                    assert(t@.skip(i as int).skip(4) =~= t@.skip(i as int + 4));
                }
                i = i + 4;
                pushes = 0;
            } else if e == 123 {
                proof {
                    assert(t@.skip(i as int).skip(2) =~= t@.skip(i as int + 2));
                }
                let mut j: usize = i + 2;
                while j < n && 48 <= t[j] && t[j] <= 57
                    invariant
                        i + 2 <= j <= n,
                        n == t@.len(),
                        pushes <= 2,
                        safe_template(t@) == safe_int_constant(
                            t@.skip(j as int),
                            if incr_used { 0int } else { 1int },
                            pushes as int,
                        ),
                    decreases n - j,
                {
                    proof {
                        assert(t@.skip(j as int).skip(1) =~= t@.skip(j as int + 1));
                    }
                    j = j + 1;
                }
                if j >= n {
                    return false;
                }
                let d: u8 = t[j];
                if d != 125 {
                    return false;
                }
                proof {
                    assert(t@.skip(j as int).skip(1) =~= t@.skip(j as int + 1));
                }
                i = j + 1;
                if pushes < 2 {
                    pushes = pushes + 1;
                }
            } else {
                return false;
            }
        }
    }
    true
}

} // verus!
