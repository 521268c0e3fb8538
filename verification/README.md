# sol_programs

The decisions of a few small Solana programs, verified with Verus:

- `fundraiser_state`, `fundraiser_ix`, `fundraiser_flow`: a fundraiser that
  collects contributions of one token until a target is met, with its account
  layouts, its instruction data and the checks of its three instructions.
- `escrow`: the checks of a token escrow (make and take).
- `user_account`, `whitelist`: per-user accounts with randomness requests, and
  a transfer-hook whitelist.
- `layout`, `address`, `error`: byte layouts, program-derived addresses and
  the failures reported to the runtime.

`app/` holds the on-chain side of the fundraiser and of the escrow's entry
and make instruction: reading accounts, the clock and the rent, and invoking
the system and token programs.
