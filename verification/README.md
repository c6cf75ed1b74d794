# indicator_math

A technical-analysis library for candle data: moving averages (EMA, HMA, EHMA,
WMA, SMA), RSI, ATR, ADX, Bollinger Bands, the Choppiness Index and
smart-money-concept structure (BOS/CHoCH, swing points, order blocks, fair value
gaps, premium/discount zones), summarised per candle into a status description
such as `M-UU-G-N` that is matched against a table of trading rules.

## Layout

- `src/` is verified with Verus. It holds the decisions of the library, stated
  over mathematical models and proved:
  - `signals`: the labels of candles and averages (direction, colour, relations,
    crosses, turns, convergence) and the decisions between them;
  - `trend`: the up/down run counters of an average and the distance to the
    latest cross;
  - `codes`: status descriptions, the series-code table and rule matching;
  - `actions`: call/put/hold decisions from EMA analysis rows;
  - `ticks`: how ticks are bucketed into one-minute candles;
  - `window`: bounded sliding windows;
  - `phases`: when the running RSI, ATR and ADX seed, smooth and produce values;
  - `summary`: the counts of an analysed history;
  - `config`: moving-average configuration and window sizes;
  - `smc`: pivots, structure breaks, trends, order-block retention and
    strong/weak levels of the smart-money-concept analysis.
- `app/` is ordinary Rust on top of the library: every computation on
  floating-point prices, the tick and candle generators that drive the verified
  decisions, the multi-asset manager, the Deriv WebSocket client and the
  WebAssembly bindings.
- `tests/` exercises the library on concrete values.

The candle master table (`CodeCandleMaster.json`) is read at run time by `app/`
from the file named by `CODE_CANDLE_MASTER`, or from the working directory.
