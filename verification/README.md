# ptt_app

The decision core of the POE Trade Tracker desktop front end, written in
Verus and proved against its contracts.

Everything in `src/` takes plain values and hands plain values back; the
window, the clocks, the settings file and the release server stay with the
caller.

| module | what it decides |
|---|---|
| `palette` | the dark and light value tables, the slot a token reads, the skin in effect |
| `status` | which slot a state's dot, text and outline read; button, tree-row and segment styling |
| `text` | the two interface languages and their sentences |
| `probes` | the pinned probe queue: pin, unpin, and emptying as pairs get captured |
| `update` | the self-update steps, what each says, the check cooldown, which late answers land |
| `market` | freshness, liquidity and verdict lights, profit colours and signs, unit prices, the radar's columns and selection |
| `quotes`, `pair` | the convert page's route order, selection and pair |
| `picker` | the currency picker's search over every name a currency has |
| `numbers` | whole numbers and size ladders read from edit boxes as the standard library reads them |
| `order`, `tuning` | the market tuning: reading and writing the 24 boxes, the settlement, focus, hidden and refused lists |
| `dates` | day boxes read with `chrono`, printed the way `chrono` prints them |
| `season`, `watch`, `trend` | season counts and the purge guard, the watch list's counts, the analytics trend cell |
| `exchange`, `calibration` | the exchange page's empty state, surge chip and reconcile warning; the next region to frame |
| `about`, `page` | the author line, whether a page answer has content |

`app/` holds what cannot be proved here: the process-wide palette switch,
clock and time-zone readings, and the figures that are only ever drawn as
floating point.
