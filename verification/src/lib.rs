//! Core rules of a stock-market trading game: instruments, countries, politics,
//! research, loans, derivatives, events and the calendar that drives them.

pub mod arrange;
pub mod bonds;
pub mod calendar;
pub mod commodities;
pub mod countries;
pub mod crypto;
pub mod cryptos;
pub mod day;
pub mod derivatives;
pub mod effects;
pub mod events;
pub mod factors;
pub mod forex;
pub mod instrument;
pub mod loans;
pub mod market;
pub mod messages;
pub mod names;
pub mod orders;
pub mod player;
pub mod politics;
pub mod random;
pub mod research;
pub mod sectors;
pub mod settings;
pub mod securities;
pub mod states;
pub mod stocks;
pub mod trading;
pub mod ui_state;
