use starstruck::color::{pop_color, push_color, Color, ColorCtx};
use starstruck::state::{Shell, State};

fn ctx_for(shell: Shell) -> ColorCtx {
    ColorCtx::new(State { exit_code: 0, shell })
}

#[test]
fn bash_push_pop_round_trip() {
    let mut ctx = ctx_for(Shell::Bash);
    let open = push_color(&mut ctx, Color::Red);
    assert_eq!(open.s, "\x01\x1b[0m\x1b[31m\x02");
    assert_eq!(ctx.depth(), 1);
    let close = pop_color(&mut ctx);
    assert_eq!(close.s, "\x01\x1b[0m\x02");
    assert_eq!(ctx.depth(), 0);
}

#[test]
fn zsh_markers_bracket_the_escape_bytes() {
    let mut ctx = ctx_for(Shell::Zsh);
    let open = push_color(&mut ctx, Color::BoldGreen);
    assert_eq!(open.s, "%{\x1b[0m\x1b[32;1m%}");
    let close = pop_color(&mut ctx);
    assert_eq!(close.s, "%{\x1b[0m%}");
}

#[test]
fn plain_shell_uses_no_markers() {
    let mut ctx = ctx_for(Shell::Plain);
    let open = push_color(&mut ctx, Color::Cyan);
    assert_eq!(open.s, "\x1b[0m\x1b[36m");
    let close = pop_color(&mut ctx);
    assert_eq!(close.s, "\x1b[0m");
}

#[test]
fn nested_pop_restores_enclosing_color() {
    let mut ctx = ctx_for(Shell::Bash);
    push_color(&mut ctx, Color::Red);
    push_color(&mut ctx, Color::BoldBlue);
    let close_inner = pop_color(&mut ctx);
    assert_eq!(close_inner.s, "\x01\x1b[0m\x1b[31m\x02");
    let close_outer = pop_color(&mut ctx);
    assert_eq!(close_outer.s, "\x01\x1b[0m\x02");
    assert_eq!(ctx.depth(), 0);
}

#[test]
fn many_pushes_then_as_many_pops_empty_the_stack() {
    let mut ctx = ctx_for(Shell::Zsh);
    let colors = [
        Color::Black,
        Color::Yellow,
        Color::Magenta,
        Color::White,
        Color::BoldCyan,
    ];
    for c in colors {
        push_color(&mut ctx, c);
    }
    assert_eq!(ctx.depth(), colors.len());
    let mut last = String::new();
    for _ in colors {
        last = pop_color(&mut ctx).s;
    }
    assert_eq!(ctx.depth(), 0);
    // The last pop restores the state from before the first push:
    // the terminal default, since the stack began empty.
    assert_eq!(last, "%{\x1b[0m%}");
}

#[test]
fn reset_can_itself_be_pushed() {
    let mut ctx = ctx_for(Shell::Bash);
    let open = push_color(&mut ctx, Color::Reset);
    assert_eq!(open.s, "\x01\x1b[0m\x1b[0m\x02");
}

#[test]
fn escape_markers_by_shell() {
    assert_eq!(Shell::Plain.escape_start(), "");
    assert_eq!(Shell::Plain.escape_end(), "");
    assert_eq!(Shell::Bash.escape_start(), "\x01");
    assert_eq!(Shell::Bash.escape_end(), "\x02");
    assert_eq!(Shell::Zsh.escape_start(), "%{");
    assert_eq!(Shell::Zsh.escape_end(), "%}");
}

#[test]
fn every_attribute_has_its_own_code() {
    let cases = [
        (Color::Black, "\x1b[30m"),
        (Color::Red, "\x1b[31m"),
        (Color::Green, "\x1b[32m"),
        (Color::Yellow, "\x1b[33m"),
        (Color::Blue, "\x1b[34m"),
        (Color::Magenta, "\x1b[35m"),
        (Color::Cyan, "\x1b[36m"),
        (Color::White, "\x1b[37m"),
        (Color::BoldBlack, "\x1b[30;1m"),
        (Color::BoldRed, "\x1b[31;1m"),
        (Color::BoldGreen, "\x1b[32;1m"),
        (Color::BoldYellow, "\x1b[33;1m"),
        (Color::BoldBlue, "\x1b[34;1m"),
        (Color::BoldMagenta, "\x1b[35;1m"),
        (Color::BoldCyan, "\x1b[36;1m"),
        (Color::BoldWhite, "\x1b[37;1m"),
        (Color::Reset, "\x1b[0m"),
    ];
    for (c, code) in cases {
        assert_eq!(c.code(), code);
    }
}
