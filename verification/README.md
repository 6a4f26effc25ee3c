# trading_game

The rules of a stock-market trading game, verified with Verus: the instruments
(stocks, bonds, currencies, commodities, coins), countries, sectors and politics,
research, loans, derivatives, orders and positions, the economic events and the
calendar that drives them.

- `src/` is the verified library. Each module states its behaviour in `requires` /
  `ensures` contracts; the public proof functions state the laws that hold across
  calls (positions, events, credit score, key handling, calendar).
  `market.rs` applies event effects to the sector scores and the bond ratings and
  draws their random shifts; `day.rs` holds the daily passes over the player's book
  (margin check, waiting orders, maturing derivatives); `arrange.rs` the order in
  which tables show their rows.
- `tests/` exercises the library on concrete values.
- `app/` holds what the library leaves out: the parts of the game that compute with
  floating-point numbers (factors, loan amounts, political scores, the random draws
  behind event effects, the player's cash and prices in `day.rs`, which runs one
  game day on top of the library's decisions) and saving games to files.

Not part of this crate: the game's window and screens (built on a game engine and
an immediate-mode interface toolkit, neither of which is a dependency here), the
clock that triggers a new game day, and the floating-point price simulation of the
instruments.

The outside calls the library makes (chrono's calendar, rand's random draws, std's
lower-casing) go through small trusted wrappers whose contracts are documented where
they are declared.
