//! Whole scripts, from source text to the value that the generated Lua
//! computes. The Lua runs in an interpreter in which a small table stands
//! for the editor: it counts the autocmds that are registered and knows the
//! builtin `len`.

use piccolo::{Closure, Executor, Lua};
use vim9jit::emit::{generate, transpile, Failure};
use vim9jit::gen::{lua_chunk, to_lua};
use vim9jit::target::GenError;

const HOST: &str = r#"
local registered = {}
vim = {
  g = {},
  fn = {
    len = function(value) return #value end,
    abs = function(value) if value < 0 then return -value end return value end,
  },
  api = {
    nvim_create_augroup = function(name, opts) return 1 end,
    nvim_create_autocmd = function(events, opts)
      for _, event in ipairs(events) do
        registered[#registered + 1] = { event = event, group = opts.group }
      end
    end,
    nvim_get_autocmds = function(opts)
      local found = {}
      for _, entry in ipairs(registered) do
        if entry.group == opts.group then
          found[#found + 1] = entry
        end
      end
      return found
    end,
  },
}
"#;

fn exec_lua(preamble: &str, result: &str) -> Result<i64, String> {
    let source = format!("{}{}", HOST, lua_chunk(preamble, result));
    let mut lua = Lua::core();
    let executor = lua
        .try_enter(|ctx| {
            let closure = Closure::load(ctx, None, source.as_bytes())?;
            Ok(ctx.stash(Executor::start(ctx, closure.into(), ())))
        })
        .map_err(|e| format!("{}", e))?;
    lua.execute::<i64>(&executor).map_err(|e| format!("{}", e))
}

#[test]
fn test_simple_def() {
    let contents = r#"
vim9script

def MyCoolFunc(): number
  return 5
enddef

var x = MyCoolFunc() + 1
"#;

    let generated = generate(contents).unwrap();
    let eval = exec_lua(&generated, "x").unwrap();
    assert_eq!(eval, 6);
}

#[test]
fn test_builtin_func() {
    let contents = r#"
vim9script

var x = len("hello")
"#;

    let generated = generate(contents).unwrap();
    let eval = exec_lua(&generated, "x").unwrap();
    assert_eq!(eval, 5);
}

#[test]
fn test_augroup_1() {
    let contents = r#"
vim9script

augroup matchparen
  # Replace all matchparen autocommands
  autocmd! CursorMoved,CursorMovedI,WinEnter * {
      echo "Block"
    }

  autocmd WinLeave * echo "Command"
augroup END

var x = len(nvim_get_autocmds({group: "matchparen"}))

"#;

    let generated = generate(contents).unwrap();
    let eval = exec_lua(&generated, "x").unwrap();
    assert_eq!(eval, 4);
}

fn all_of_it(preamble: &str, result: &str) -> Result<i64, String> {
    let lua = to_lua(preamble).map_err(|e| format!("{:?}", e))?;
    exec_lua(&lua, result)
}

#[test]
fn test_can_do_whole_thing() {
    assert_eq!(all_of_it("", "1 + 1"), Ok(2));
}

#[test]
fn test_can_return_val_of_simple_identifier() {
    assert_eq!(all_of_it("var x = 1", "x"), Ok(1));
    assert_eq!(all_of_it("var x = 1", "x + 2"), Ok(3));
    assert_eq!(all_of_it("var x = 1 + 2", "x"), Ok(3));
    assert_eq!(all_of_it("var x = 1 * 2", "x"), Ok(2));

    assert_eq!(all_of_it("var x = 1\nvar y = 2\nvar z = x * y", "z"), Ok(2));
}

#[test]
fn test_can_call_a_function() {
    assert_eq!(all_of_it("var x = abs(1)", "x"), Ok(1));
    assert_eq!(all_of_it("var x = abs(1 - 2)", "x"), Ok(1));
    assert_eq!(all_of_it("var x = abs(1 + 2)", "x"), Ok(3));
}

#[test]
fn sum_of_two_numbers_evaluates() {
    let generated = generate("var x = 1 + 1\n").unwrap();
    assert_eq!(exec_lua(&generated, "x").unwrap(), 2);
}

#[test]
fn unformatted_text_runs_too() {
    let lua = transpile("def F(): number\n return 5\nenddef\nvar x = F() + 1").unwrap();
    assert_eq!(exec_lua(&lua, "x").unwrap(), 6);
}

#[test]
fn autocmd_after_a_closed_augroup_is_in_no_group() {
    let contents = "augroup G\n  autocmd WinLeave * echo 1\naugroup END\nautocmd WinEnter,WinNew * echo 2\nvar x = len(nvim_get_autocmds({group: 'G'}))\n";
    let generated = generate(contents).unwrap();
    assert_eq!(exec_lua(&generated, "x").unwrap(), 1);
}

#[test]
fn prefix_expression_is_refused() {
    assert_eq!(generate("var x = -1\n"), Err(Failure::Generate(GenError::PrefixExpression)));
    assert_eq!(generate("var x = !y\n"), Err(Failure::Generate(GenError::PrefixExpression)));
}
