//! Nested color scopes: a stack of display attributes that emits
//! shell-correct, properly bracketed escape text.

use vstd::prelude::*;

use crate::output::UncountedString;
use crate::state::{escape_end_spec, escape_start_spec, Shell, State};

verus! {

/// One of the sixteen fixed display attributes (eight base colors,
/// each in normal or bold weight), or the reset attribute.
#[derive(Clone, Copy, PartialEq, Eq, Structural, Debug)]
pub enum Color {
    Black,
    Red,
    Green,
    Yellow,
    Blue,
    Magenta,
    Cyan,
    White,
    BoldBlack,
    BoldRed,
    BoldGreen,
    BoldYellow,
    BoldBlue,
    BoldMagenta,
    BoldCyan,
    BoldWhite,
    Reset,
}

/// The raw escape bytes that apply a display attribute.
pub open spec fn code_spec(c: Color) -> Seq<char> {
    match c {
        Color::Black => "\x1b[30m"@,
        Color::Red => "\x1b[31m"@,
        Color::Green => "\x1b[32m"@,
        Color::Yellow => "\x1b[33m"@,
        Color::Blue => "\x1b[34m"@,
        Color::Magenta => "\x1b[35m"@,
        Color::Cyan => "\x1b[36m"@,
        Color::White => "\x1b[37m"@,
        Color::BoldBlack => "\x1b[30;1m"@,
        Color::BoldRed => "\x1b[31;1m"@,
        Color::BoldGreen => "\x1b[32;1m"@,
        Color::BoldYellow => "\x1b[33;1m"@,
        Color::BoldBlue => "\x1b[34;1m"@,
        Color::BoldMagenta => "\x1b[35;1m"@,
        Color::BoldCyan => "\x1b[36;1m"@,
        Color::BoldWhite => "\x1b[37;1m"@,
        Color::Reset => "\x1b[0m"@,
    }
}

impl Color {
    /// The raw escape bytes that apply this attribute.
    pub fn code(self) -> (r: &'static str)
        ensures
            r@ == code_spec(self),
    {
        match self {
            Color::Black => "\x1b[30m",
            Color::Red => "\x1b[31m",
            Color::Green => "\x1b[32m",
            Color::Yellow => "\x1b[33m",
            Color::Blue => "\x1b[34m",
            Color::Magenta => "\x1b[35m",
            Color::Cyan => "\x1b[36m",
            Color::White => "\x1b[37m",
            Color::BoldBlack => "\x1b[30;1m",
            Color::BoldRed => "\x1b[31;1m",
            Color::BoldGreen => "\x1b[32;1m",
            Color::BoldYellow => "\x1b[33;1m",
            Color::BoldBlue => "\x1b[34;1m",
            Color::BoldMagenta => "\x1b[35;1m",
            Color::BoldCyan => "\x1b[36;1m",
            Color::BoldWhite => "\x1b[37;1m",
            Color::Reset => "\x1b[0m",
        }
    }
}

/// Raw escape bytes wrapped in the shell's zero-width markers, so the
/// line editor counts them as occupying no columns.
pub open spec fn marked_spec(shell: Shell, body: Seq<char>) -> Seq<char> {
    escape_start_spec(shell) + body + escape_end_spec(shell)
}

/// The text a push emits: reset every prior attribute, then apply the
/// pushed color. The terminal cannot be asked what is active, so each
/// nesting level starts from the known baseline.
pub open spec fn push_text_spec(shell: Shell, col: Color) -> Seq<char> {
    marked_spec(shell, code_spec(Color::Reset) + code_spec(col))
}

/// The text a pop emits once `remaining` is what is left on the
/// stack: reset, then re-apply the color now on top, or leave the
/// terminal default if nothing remains.
pub open spec fn pop_text_spec(shell: Shell, remaining: Seq<Color>) -> Seq<char> {
    if remaining.len() == 0 {
        marked_spec(shell, code_spec(Color::Reset))
    } else {
        marked_spec(shell, code_spec(Color::Reset) + code_spec(remaining.last()))
    }
}

/// Nested color-scope state for one prompt render. Pushes and pops
/// are paired by the caller; the stack must be empty again when the
/// render ends.
pub struct ColorCtx {
    state: State,
    stack: Vec<Color>,
}

impl ColorCtx {
    /// The colors on the stack, bottom first.
    pub closed spec fn colors(&self) -> Seq<Color> {
        self.stack@
    }

    /// The shell the escape markers are written for.
    pub closed spec fn shell(&self) -> Shell {
        self.state.shell
    }

    /// How many color scopes are open.
    pub fn depth(&self) -> (r: usize)
        ensures
            r == self.colors().len(),
    {
        self.stack.len()
    }

    /// A fresh context with an empty stack.
    pub fn new(state: State) -> (r: ColorCtx)
        ensures
            r.colors() == Seq::<Color>::empty(),
            r.shell() == state.shell,
    {
        ColorCtx { state, stack: Vec::new() }
    }
}

/// Pushes a color scope and returns the escape text that opens it:
/// reset, then the new color, inside zero-width markers. The text
/// occupies no visual columns, so it comes back as an uncounted
/// segment that must bypass the printer's cursor tracking.
pub fn push_color(ctx: &mut ColorCtx, col: Color) -> (r: UncountedString)
    ensures
        final(ctx).colors() == old(ctx).colors().push(col),
        final(ctx).shell() == old(ctx).shell(),
        r.s@ == push_text_spec(old(ctx).shell(), col),
{
    ctx.stack.push(col);
    let mut s = String::new();
    s.append(ctx.state.shell.escape_start());
    s.append(Color::Reset.code());
    s.append(col.code());
    s.append(ctx.state.shell.escape_end());
    UncountedString { s }
}

/// Pops the innermost color scope and returns the escape text that
/// closes it: reset, then the color of the enclosing scope, or the
/// terminal default if none encloses it. The text comes back as an
/// uncounted segment, like a push's. Popping with no open scope is a
/// caller error and is ruled out by contract.
pub fn pop_color(ctx: &mut ColorCtx) -> (r: UncountedString)
    requires
        old(ctx).colors().len() > 0,
    ensures
        final(ctx).colors() == old(ctx).colors().drop_last(),
        final(ctx).shell() == old(ctx).shell(),
        r.s@ == pop_text_spec(old(ctx).shell(), old(ctx).colors().drop_last()),
{
    let _ = ctx.stack.pop();
    let mut s = String::new();
    s.append(ctx.state.shell.escape_start());
    s.append(Color::Reset.code());
    if ctx.stack.len() > 0 {
        let top = ctx.stack[ctx.stack.len() - 1];
        s.append(top.code());
    }
    s.append(ctx.state.shell.escape_end());
    UncountedString { s }
}

/// The stack after `n` pops.
pub open spec fn popped_n(stack: Seq<Color>, n: nat) -> Seq<Color>
    decreases n,
{
    if n == 0 {
        stack
    } else {
        popped_n(stack.drop_last(), (n - 1) as nat)
    }
}

/// Popping exactly as many frames as were appended removes exactly
/// those frames.
pub proof fn lemma_popped_append(stack: Seq<Color>, cs: Seq<Color>)
    ensures
        popped_n(stack + cs, cs.len()) == stack,
    decreases cs.len(),
{
    if cs.len() == 0 {
        assert(stack + cs =~= stack);
    } else {
        assert((stack + cs).drop_last() =~= stack + cs.drop_last());
        lemma_popped_append(stack, cs.drop_last());
    }
}

/// Deep nesting symmetry: pushing the colors `cs` and then popping as
/// many times returns the stack to what it was before, and the last
/// of those pops acts on the stack with only the first pushed color
/// left on top — so the text it emits re-applies exactly the state
/// from before the first push: the old top of stack, or the terminal
/// default if the stack was empty.
pub proof fn lemma_deep_nesting_symmetry(shell: Shell, stack: Seq<Color>, cs: Seq<Color>)
    requires
        cs.len() > 0,
    ensures
        popped_n(stack + cs, cs.len()) == stack,
        popped_n(stack + cs, (cs.len() - 1) as nat) == stack.push(cs.first()),
        pop_text_spec(shell, popped_n(stack + cs, (cs.len() - 1) as nat).drop_last())
            == pop_text_spec(shell, stack),
{
    lemma_popped_append(stack, cs);
    lemma_popped_append(stack.push(cs.first()), cs.drop_first());
    assert(stack.push(cs.first()) + cs.drop_first() =~= stack + cs);
    assert(stack.push(cs.first()).drop_last() =~= stack);
}

} // verus!
