"""Lists the colours at which the YCbCr skin test, evaluated term by term in
IEEE single precision, disagrees with the exact integer form used by
`skin::skin_like` before its edge table is applied.

Every single-precision operation is emulated by computing in double precision
and rounding to single precision, which gives the correctly rounded result for
+, - and *. Run with `python3 skin_edge_colours.py`; the printed (r, g, b)
triples are the ones that `single_precision_edge` lists.
"""
import struct
from multiprocessing import Pool


def f32(x):
    return struct.unpack("f", struct.pack("f", x))[0]


C1, C2, C3, C4 = f32(0.168736), f32(0.331264), f32(0.418688), f32(0.081312)


def row(r):
    rf = float(r)
    cb_r = f32(128.0 - f32(C1 * rf))
    cr_r = f32(128.0 + f32(0.5 * rf))
    edges = []
    for g in range(256):
        gf = float(g)
        cb_rg = f32(cb_r - f32(C2 * gf))
        cr_rg = f32(cr_r - f32(C3 * gf))
        for b in range(256):
            bf = float(b)
            cb = f32(cb_rg + f32(0.5 * bf))
            cr = f32(cr_rg - f32(C4 * bf))
            single = 77.0 <= cb <= 127.0 and 133.0 <= cr <= 173.0
            cb_micro = 128_000_000 - 168_736 * r - 331_264 * g + 500_000 * b
            cr_micro = 128_000_000 + 500_000 * r - 418_688 * g - 81_312 * b
            exact = 77_000_000 <= cb_micro <= 127_000_000 and 133_000_000 <= cr_micro <= 173_000_000
            if single != exact:
                edges.append((r, g, b, single))
    return edges


if __name__ == "__main__":
    with Pool() as pool:
        found = [e for edges in pool.map(row, range(256)) for e in edges]
    for r, g, b, single in found:
        print((r, g, b), "inside" if single else "outside", "in single precision")
    print(len(found), "colours differ")
