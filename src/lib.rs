pub mod date;
pub mod laws;
pub mod model;
pub mod render;

pub use date::Date;
pub use model::{
    Account, AccountType, Amount, Balance, BcOption, Booking, Close, Commodity, CostSpec, Custom,
    Directive, Document, Event, Flag, IncompleteAmount, Include, Ledger, Meta, Note, Open, Pad,
    Plugin, Posting, Price, Query, Transaction,
};
pub use render::{render, render_ledger, BasicRenderer, BasicRendererError, Renderer};
