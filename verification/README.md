# chess_gui

The decision logic of a two-player chess board front end, verified with Verus.

- `src/board.rs`: the position as the front end reads it (piece kind and owner
  of each of the 64 squares, and the side to move).
- `src/selection.rs`: the click-driven move selection (`GAME`,
  `button_presser`, `checker`) and its laws.
- `src/sprites.rs`: the piece sprites drawn for a position and the checkmate
  banner.
- `src/network.rs`: the move messages exchanged with a remote opponent, the
  order of the exchange (`server_step`), the
  queen promotion rule, and the round trip of squares through a message.
- `app/`: the windowing, rendering, chess engine and TCP plumbing around the
  library.
