//! Routing of raw ITCH messages to the processors of the tracked symbols.
use vstd::prelude::*;
use crate::itch::{ItchMessage, ItchMessageView, locate_of, message_fits, parse_itch_message, read_u16, spec_parse};
use crate::processor::{SymbolProcessor, accepts, handled, SnapshotColumns};
use crate::orderbook::BookView;
use crate::text::{trim_chars, trim_nul, trim_white_space};

verus! {

/// The number of stock locate codes, one slot each in the lookup table.
pub const LOCATE_SLOTS: usize = 65536;

/// What handling one raw message did.
pub enum PacketOutcome {
    /// The message went to the processor at `slot`; `flush_due` tells whether
    /// that processor's rows are due to be flushed.
    Handled { slot: usize, flush_due: bool },
    /// A stock directory entry mapped the processor at `slot` to its locate code.
    Mapped { slot: usize },
    /// Nothing changed: a tracked locate with a message type that is not
    /// decoded, or a directory entry for a symbol that is not tracked.
    Ignored,
    /// A message for a locate that is not tracked, counted as dropped.
    Dropped,
}

/// Routes each message to the processor of its symbol.
pub struct StockDataHandler {
    pub processors: Vec<SymbolProcessor>,
    /// Stock locate to processor index; -1 for a locate that is not tracked.
    pub lookup_table: [i16; 65536],
    pub counter_dropped: u64,
    pub counter_symbol_processed: u64,
}

impl SymbolProcessor {
    /// The processor with its stock locate set to `loc`.
    pub open spec fn with_locate(self, loc: u16) -> SymbolProcessor {
        SymbolProcessor { stock_locate: loc, ..self }
    }
}

/// The symbol that a directory entry names, with NULs and then white space
/// trimmed from both ends.
pub open spec fn clean_symbol(symbol: Seq<char>) -> Seq<char> {
    trim_white_space(trim_nul(symbol))
}

/// `after` is `before` once a directory entry for `symbol` at `loc` has been
/// handled: the first processor of that symbol (if any) takes `loc` as its
/// locate, and the lookup table sends `loc` to it; `r` is its index.
pub open spec fn listed(
    before: StockDataHandler,
    loc: u16,
    symbol: Seq<char>,
    after: StockDataHandler,
    r: Option<usize>,
) -> bool {
    let clean = clean_symbol(symbol);
    &&& after.counter_dropped == before.counter_dropped
    &&& after.counter_symbol_processed == before.counter_symbol_processed
    &&& match r {
        Some(pos) => {
            &&& pos < before.processors@.len()
            &&& before.processors@[pos as int].symbol@ == clean
            &&& forall|j: int| 0 <= j < pos ==> before.processors@[j].symbol@ != clean
            &&& after.processors@ == before.processors@.update(
                pos as int,
                before.processors@[pos as int].with_locate(loc),
            )
            &&& after.lookup_table@ == before.lookup_table@.update(loc as int, pos as i16)
        },
        None => {
            &&& forall|j: int|
                0 <= j < before.processors@.len() ==> before.processors@[j].symbol@ != clean
            &&& after.processors@ == before.processors@
            &&& after.lookup_table@ == before.lookup_table@
        },
    }
}

impl StockDataHandler {
    /// The lookup slot of stock locate `loc`.
    pub open spec fn slot(self, loc: u16) -> i16 {
        self.lookup_table@[loc as int]
    }

    /// Handling `raw` cannot fail: it holds a type byte and a stock locate;
    /// a message for a tracked locate fits the fields its type reads, and
    /// when it decodes, its slot names an existing processor, which accepts
    /// it, and the processed counter has room; a directory entry for
    /// an untracked locate fits its fields; any other message for an
    /// untracked locate has room in the dropped counter.
    pub open spec fn packet_ok(self, raw: Seq<u8>) -> bool {
        &&& raw.len() >= 3
        &&& {
            let slot = self.slot(locate_of(raw));
            if slot != -1 {
                &&& message_fits(raw)
                &&& (spec_parse(raw) matches Some(m) ==> {
                    &&& 0 <= slot < self.processors@.len()
                    &&& accepts(self.processors@[slot as int], m)
                    &&& self.counter_symbol_processed < u64::MAX
                })
            } else if raw[0] == 0x52 {
                message_fits(raw)
            } else {
                self.counter_dropped < u64::MAX
            }
        }
    }

    /// A handler with one processor per target symbol, in order, and no
    /// locate tracked yet.
    pub fn new(target_symbols: Vec<String>) -> (r: Self)
        ensures
            r.processors@.len() == target_symbols@.len(),
            forall|i: int|
                0 <= i < target_symbols@.len() ==> {
                    let p = #[trigger] r.processors@[i];
                    &&& p.symbol@ == target_symbols@[i]@
                    &&& p.stock_locate == 0
                    &&& p.order_book@ == BookView::empty()
                    &&& p.columns() == SnapshotColumns::empty()
                    &&& p.counter == 0
                },
            forall|loc: u16| r.slot(loc) == -1,
            r.counter_dropped == 0,
            r.counter_symbol_processed == 0,
    {
        let mut processors: Vec<SymbolProcessor> = Vec::new();
        let n = target_symbols.len();
        let mut i: usize = 0;
        while i < n
            invariant
                n == target_symbols@.len(),
                i <= n,
                processors@.len() == i,
                forall|k: int|
                    0 <= k < i ==> {
                        let p = #[trigger] processors@[k];
                        &&& p.symbol@ == target_symbols@[k]@
                        &&& p.stock_locate == 0
                        &&& p.order_book@ == BookView::empty()
                        &&& p.columns() == SnapshotColumns::empty()
                        &&& p.counter == 0
                    },
            decreases n - i,
        {
            let sym = target_symbols[i].clone();
            processors.push(SymbolProcessor::new(sym));
            i = i + 1;
        }
        let r = StockDataHandler {
            processors,
            lookup_table: [-1i16; 65536],
            counter_dropped: 0,
            counter_symbol_processed: 0,
        };
        proof {
            assert forall|loc: u16| r.slot(loc) == -1 by {
                assert(0 <= loc as int && (loc as int) < 65536);
            }
        }
        r
    }

    /// Handles a stock directory entry: the first processor whose symbol is
    /// `symbol` with NULs and white space trimmed from both ends takes
    /// `stock_locate`, and the lookup table sends `stock_locate` to it.
    /// Returns that processor's index, or `None` when no processor tracks the
    /// symbol.
    pub fn handle_stock_directory(&mut self, stock_locate: u16, symbol: String) -> (r: Option<
        usize,
    >)
        ensures
            listed(*old(self), stock_locate, symbol@, *final(self), r),
    {
        let without_nul = trim_chars(symbol.as_str(), true);
        let clean = trim_chars(without_nul.as_str(), false);
        let n = self.processors.len();
        let mut pos: usize = 0;
        while pos < n
            invariant
                n == self.processors@.len(),
                pos <= n,
                clean@ == clean_symbol(symbol@),
                *self == *old(self),
                forall|j: int| 0 <= j < pos ==> self.processors@[j].symbol@ != clean@,
            decreases n - pos,
        {
            if self.processors[pos].symbol == clean {
                self.processors[pos].stock_locate = stock_locate;
                self.lookup_table[stock_locate as usize] = pos as i16;
                return Some(pos);
            }
            pos = pos + 1;
        }
        None
    }

    fn filter_message_for_symbols(&mut self, msg: ItchMessage) -> (r: Option<usize>)
        ensures
            match msg@ {
                ItchMessageView::StockDirectory { stock_locate, symbol } => listed(
                    *old(self),
                    stock_locate,
                    symbol,
                    *final(self),
                    r,
                ),
                _ => r is None && *final(self) == *old(self),
            },
    {
        match msg {
            ItchMessage::StockDirectory { stock_locate, symbol } => {
                self.handle_stock_directory(stock_locate, symbol)
            },
            _ => None,
        }
    }

    /// Whether `raw_data` can be handled (see [`StockDataHandler::packet_ok`]).
    pub fn accepts_packet(&self, raw_data: &[u8]) -> (r: bool)
        ensures
            r == self.packet_ok(raw_data@),
    {
        let n = raw_data.len();
        if n < 3 {
            return false;
        }
        let locate = read_u16(raw_data, 1);
        let slot_idx = self.lookup_table[locate as usize];
        let t = raw_data[0];
        let fits = (t != 0x52 || n >= 19) && (t != 0x41 || (n >= 20 && (
        (raw_data[19] != 0x42 && raw_data[19] != 0x53) || n >= 36))) && (t != 0x58 || n >= 23) && (t
            != 0x44 || n >= 19) && (t != 0x45 || n >= 31) && (t != 0x43 || n >= 36) && (t != 0x55
            || n >= 35);
        if slot_idx != -1 {
            if !fits {
                return false;
            }
            match parse_itch_message(raw_data) {
                Some(msg) => {
                    if slot_idx < 0 || slot_idx as usize >= self.processors.len() {
                        return false;
                    }
                    self.processors[slot_idx as usize].accepts_event(&msg)
                        && self.counter_symbol_processed < u64::MAX
                },
                None => true,
            }
        } else if t == 0x52 {
            fits
        } else {
            self.counter_dropped < u64::MAX
        }
    }

    /// Handles one raw message (without its length prefix). A message for a
    /// tracked locate is decoded and handled by that locate's processor, and
    /// counted as processed when it decodes. A stock directory entry for an
    /// untracked locate maps it when it names a tracked symbol. Any other
    /// message for an untracked locate is counted as dropped.
    pub fn handle_raw_packet(&mut self, raw_data: &[u8]) -> (r: PacketOutcome)
        requires
            old(self).packet_ok(raw_data@),
        ensures
            ({
                let raw = raw_data@;
                let slot = old(self).slot(locate_of(raw));
                if slot != -1 {
                    match spec_parse(raw) {
                        Some(m) => {
                            &&& r matches PacketOutcome::Handled { slot: s, flush_due }
                            &&& s == slot
                            &&& final(self).processors@.len() == old(self).processors@.len()
                            &&& forall|j: int|
                                0 <= j < old(self).processors@.len() && j != slot
                                    ==> final(self).processors@[j] == old(self).processors@[j]
                            &&& handled(
                                old(self).processors@[slot as int],
                                m,
                                final(self).processors@[slot as int],
                                flush_due,
                            )
                            &&& final(self).lookup_table@ == old(self).lookup_table@
                            &&& final(self).counter_symbol_processed
                                == old(self).counter_symbol_processed + 1
                            &&& final(self).counter_dropped == old(self).counter_dropped
                        },
                        None => r is Ignored && *final(self) == *old(self),
                    }
                } else if raw[0] == 0x52 {
                    match spec_parse(raw) {
                        Some(ItchMessageView::StockDirectory { stock_locate, symbol }) => {
                            &&& listed(*old(self), stock_locate, symbol, *final(self), (match r {
                                PacketOutcome::Mapped { slot } => Some(slot),
                                _ => None,
                            }))
                            &&& (r is Mapped || r is Ignored)
                        },
                        _ => false,
                    }
                } else {
                    &&& r is Dropped
                    &&& final(self).counter_dropped == old(self).counter_dropped + 1
                    &&& final(self).processors@ == old(self).processors@
                    &&& final(self).lookup_table@ == old(self).lookup_table@
                    &&& final(self).counter_symbol_processed == old(self).counter_symbol_processed
                }
            }),
    {
        let locate = read_u16(raw_data, 1);
        let slot_idx = self.lookup_table[locate as usize];
        if slot_idx != -1 {
            match parse_itch_message(raw_data) {
                Some(msg) => {
                    let slot = slot_idx as usize;
                    let flush_due = self.processors[slot].handle_event(msg);
                    self.counter_symbol_processed = self.counter_symbol_processed + 1;
                    PacketOutcome::Handled { slot, flush_due }
                },
                None => PacketOutcome::Ignored,
            }
        } else {
            let msg_type = raw_data[0];
            if msg_type == 0x52 {
                match parse_itch_message(raw_data) {
                    Some(msg) => match self.filter_message_for_symbols(msg) {
                        Some(slot) => PacketOutcome::Mapped { slot },
                        None => PacketOutcome::Ignored,
                    },
                    None => PacketOutcome::Ignored,
                }
            } else {
                self.counter_dropped = self.counter_dropped + 1;
                PacketOutcome::Dropped
            }
        }
    }
}

} // verus!
