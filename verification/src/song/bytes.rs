//! Fixed-length arrays: the items one after the other, with no length prefix.

use vstd::prelude::*;
use vstd::array::spec_array_update;
use super::{
    lemma_write_after, ConstSongSize, ConstSongSizeImplFromConstSongSize, ConstSongSizeValue,
    FromSong, FromSongError, HasSongSize, MultiplyConstSongSizeImpl, SongRoundTrip, SongSize,
    SongSizeExpr, ToSong, ToSongError,
};

verus! {

broadcast use vstd::array::axiom_spec_array_update;

/// The number of bytes of the items, one after the other.
pub open spec fn items_song_len<T: SongSize>(items: Seq<T>) -> nat
    decreases items.len(),
{
    if items.len() == 0 {
        0
    } else {
        items[0].song_len() + items_song_len(items.drop_first())
    }
}

/// The bytes of the items, one after the other.
pub open spec fn items_song_bytes<T: ToSong>(items: Seq<T>) -> Seq<u8>
    decreases items.len(),
{
    if items.len() == 0 {
        Seq::empty()
    } else {
        items[0].song_bytes() + items_song_bytes(items.drop_first())
    }
}

/// Reading `n` items one after the other from the start of `bytes`; the first item that cannot
/// be read gives the error.
pub open spec fn parse_items<T: FromSong>(bytes: Seq<u8>, n: nat) -> Result<Seq<T>, FromSongError>
    decreases n,
{
    if n == 0 {
        Ok(Seq::empty())
    } else {
        match T::song_parse(bytes) {
            Err(e) => Err(e),
            Ok(v) => match parse_items::<T>(bytes.skip(v.song_len() as int), (n - 1) as nat) {
                Err(e) => Err(e),
                Ok(rest) => Ok(seq![v] + rest),
            },
        }
    }
}

/// The array that holds `items`.
pub open spec fn array_of<T, const N: usize>(items: Seq<T>) -> [T; N] {
    choose|a: [T; N]| a@ == items
}

/// `base` with its first `k` items replaced by those of `items`.
spec fn array_with_items<T, const N: usize>(base: [T; N], items: Seq<T>, k: nat) -> [T; N]
    decreases k,
{
    if k == 0 {
        base
    } else {
        spec_array_update(array_with_items(base, items, (k - 1) as nat), k - 1, items[k - 1])
    }
}

proof fn lemma_array_with_items<T, const N: usize>(base: [T; N], items: Seq<T>, k: nat)
    requires
        k <= N,
    ensures
        array_with_items(base, items, k)@.len() == N,
        forall|j: int| 0 <= j < k ==> #[trigger] array_with_items(base, items, k)@[j] == items[j],
    decreases k,
{
    if k > 0 {
        lemma_array_with_items(base, items, (k - 1) as nat);
        let prev = array_with_items(base, items, (k - 1) as nat);
        assert(spec_array_update(prev, k - 1, items[k - 1])@ == prev@.update(k - 1, items[k - 1]));
    }
}

/// Every sequence of `N` items is the contents of some array, so `array_of` holds them.
proof fn lemma_array_exists<T, const N: usize>(items: Seq<T>)
    requires
        items.len() == N,
    ensures
        array_of::<T, N>(items)@ == items,
{
    let a = array_with_items(vstd::pervasive::arbitrary::<[T; N]>(), items, N as nat);
    lemma_array_with_items(vstd::pervasive::arbitrary::<[T; N]>(), items, N as nat);
    assert(a@ =~= items);
}

/// Two arrays with the same items are the same array.
proof fn lemma_array_of<T, const N: usize>(a: [T; N], items: Seq<T>)
    requires
        a@ == items,
    ensures
        array_of::<T, N>(items) == a,
{
    let c = array_of::<T, N>(items);
    assert(c@ == items);
    assert(c =~= a);
}

/// Lengths and bytes of items add up over a concatenation.
proof fn lemma_items_concat<T: ToSong>(a: Seq<T>, b: Seq<T>)
    ensures
        items_song_len(a + b) == items_song_len(a) + items_song_len(b),
        items_song_bytes(a + b) == items_song_bytes(a) + items_song_bytes(b),
    decreases a.len(),
{
    if a.len() > 0 {
        assert((a + b).drop_first() =~= a.drop_first() + b);
        lemma_items_concat(a.drop_first(), b);
        assert(items_song_bytes(a + b) =~= items_song_bytes(a) + items_song_bytes(b));
    } else {
        assert(a + b =~= b);
        assert(items_song_bytes(a) + items_song_bytes(b) =~= items_song_bytes(b));
    }
}

/// The bytes of items are as many as their length says.
proof fn lemma_items_bytes_len<T: ToSong>(items: Seq<T>)
    ensures
        items_song_bytes(items).len() == items_song_len(items),
    decreases items.len(),
{
    if items.len() > 0 {
        items[0].lemma_song_bytes_len();
        lemma_items_bytes_len(items.drop_first());
    }
}

/// One item takes its own length and bytes.
proof fn lemma_items_single<T: ToSong>(x: T)
    ensures
        items_song_len(seq![x]) == x.song_len(),
        items_song_bytes(seq![x]) == x.song_bytes(),
{
    lemma_items_single_len(x);
    let s = seq![x];
    assert(s.drop_first() =~= Seq::<T>::empty());
    assert(items_song_bytes(Seq::<T>::empty()) == Seq::<u8>::empty());
    assert(items_song_bytes(s) =~= x.song_bytes());
}

/// One item takes its own length.
proof fn lemma_items_single_len<T: SongSize>(x: T)
    ensures
        items_song_len(seq![x]) == x.song_len(),
{
    let s = seq![x];
    assert(s.len() == 1);
    assert(s[0] == x);
    assert(s.drop_first() =~= Seq::<T>::empty());
    assert(items_song_len(Seq::<T>::empty()) == 0);
}

/// Taking one more item adds its length and bytes.
proof fn lemma_items_take_next<T: ToSong>(items: Seq<T>, i: int)
    requires
        0 <= i < items.len(),
    ensures
        items_song_len(items.take(i + 1)) == items_song_len(items.take(i)) + items[i].song_len(),
        items_song_bytes(items.take(i + 1)) == items_song_bytes(items.take(i))
            + items[i].song_bytes(),
        items_song_len(items.take(i)) + items[i].song_len() <= items_song_len(items),
{
    let x = items[i];
    assert(items.take(i + 1) =~= items.take(i) + seq![x]);
    lemma_items_concat(items.take(i), seq![x]);
    lemma_items_single(x);
    assert(items =~= items.take(i + 1) + items.skip(i + 1));
    lemma_items_concat(items.take(i + 1), items.skip(i + 1));
}

/// Items of one fixed size take that size each.
proof fn lemma_items_const_len<T: ConstSongSize>(items: Seq<T>)
    ensures
        items_song_len(items) == items.len() * T::const_song_len(),
    decreases items.len(),
{
    if items.len() > 0 {
        T::lemma_const_song_len(&items[0]);
        lemma_items_const_len(items.drop_first());
        let n = items.len() as int;
        let c = T::const_song_len() as int;
        assert(c + (n - 1) * c == n * c) by (nonlinear_arith);
    }
}

/// What is read is never longer than what there was.
proof fn lemma_parse_items_len<T: FromSong>(bytes: Seq<u8>, n: nat)
    ensures
        parse_items::<T>(bytes, n) matches Ok(items) ==> items.len() == n && items_song_len(items)
            <= bytes.len(),
    decreases n,
{
    if n > 0 {
        T::lemma_parse_len(bytes);
        if let Ok(v) = T::song_parse(bytes) {
            lemma_parse_items_len::<T>(bytes.skip(v.song_len() as int), (n - 1) as nat);
            if let Ok(rest) = parse_items::<T>(bytes.skip(v.song_len() as int), (n - 1) as nat) {
                assert((seq![v] + rest).drop_first() =~= rest);
            }
        }
    }
}

/// Reading back the items that were written gives the items, whatever follows.
proof fn lemma_items_round_trip<T: SongRoundTrip>(items: Seq<T>, rest: Seq<u8>)
    ensures
        parse_items::<T>(items_song_bytes(items) + rest, items.len()) == Ok::<
            Seq<T>,
            FromSongError,
        >(items),
    decreases items.len(),
{
    if items.len() > 0 {
        let v = items[0];
        let tail = items.drop_first();
        v.lemma_song_bytes_len();
        assert(items_song_bytes(items) + rest =~= v.song_bytes() + (items_song_bytes(tail)
            + rest));
        v.lemma_song_round_trip(items_song_bytes(tail) + rest);
        assert((items_song_bytes(items) + rest).skip(v.song_len() as int) =~= items_song_bytes(
            tail,
        ) + rest);
        lemma_items_round_trip(tail, rest);
        assert(seq![v] + tail =~= items);
    } else {
        assert(parse_items::<T>(items_song_bytes(items) + rest, 0) == Ok::<
            Seq<T>,
            FromSongError,
        >(Seq::empty()));
        assert(items =~= Seq::<T>::empty());
    }
}

/// `std`'s conversion of a vector into an array (`TryFrom<Vec<T>> for [T; N]`): the array with
/// the vector's items when it has exactly `N` of them, and the vector back otherwise.
#[verifier::external_body]
fn array_from_vec<T, const N: usize>(items: Vec<T>) -> (r: Result<[T; N], Vec<T>>)
    ensures
        r is Ok <==> items@.len() == N,
        r matches Ok(a) ==> a@ == items@,
        r matches Err(v) ==> v@ == items@,
{
    <[T; N]>::try_from(items)
}

impl<T: ConstSongSize, const N: usize> HasSongSize for [T; N] {
    type Size = MultiplyConstSongSizeImpl<ConstSongSizeImplFromConstSongSize<T>, ConstSongSizeValue<N>>;
}

impl<T: SongSize, const N: usize> SongSize for [T; N] {
    open spec fn song_len(&self) -> nat {
        items_song_len(self@)
    }

    fn song_size(&self) -> (n: usize) {
        let mut total: usize = 0;
        let mut i: usize = 0;
        while i < N
            invariant
                0 <= i <= N,
                self@.len() == N,
                items_song_len(self@) <= usize::MAX,
                total == items_song_len(self@.take(i as int)),
                total <= items_song_len(self@),
            decreases N - i,
        {
            proof {
                lemma_items_take_next_len(self@, i as int);
            }
            total = total + self[i].song_size();
            i = i + 1;
        }
        proof {
            assert(self@.take(N as int) =~= self@);
        }
        total
    }
}

/// Taking one more item adds its length (for items that may not be writable).
proof fn lemma_items_take_next_len<T: SongSize>(items: Seq<T>, i: int)
    requires
        0 <= i < items.len(),
    ensures
        items_song_len(items.take(i + 1)) == items_song_len(items.take(i)) + items[i].song_len(),
        items_song_len(items.take(i)) + items[i].song_len() <= items_song_len(items),
{
    lemma_items_len_split(items.take(i + 1), items.skip(i + 1));
    assert(items =~= items.take(i + 1) + items.skip(i + 1));
    lemma_items_len_split(items.take(i), seq![items[i]]);
    assert(items.take(i + 1) =~= items.take(i) + seq![items[i]]);
    lemma_items_single_len(items[i]);
}

/// Lengths of items add up over a concatenation.
proof fn lemma_items_len_split<T: SongSize>(a: Seq<T>, b: Seq<T>)
    ensures
        items_song_len(a + b) == items_song_len(a) + items_song_len(b),
    decreases a.len(),
{
    if a.len() > 0 {
        assert((a + b).drop_first() =~= a.drop_first() + b);
        lemma_items_len_split(a.drop_first(), b);
    } else {
        assert(a + b =~= b);
    }
}

impl<T: ConstSongSize, const N: usize> ConstSongSize for [T; N] {
    open spec fn const_song_len() -> nat {
        (N as nat) * T::const_song_len()
    }

    fn const_song_size() -> (n: usize) {
        let c = if N == 0 {
            0
        } else {
            assert(T::const_song_len() <= N * T::const_song_len()) by (nonlinear_arith)
                requires
                    N > 0,
            ;
            T::const_song_size()
        };
        assert(N * c == N * T::const_song_len());
        N * c
    }

    fn const_song_fits(len: usize) -> (b: bool) {
        if N == 0 {
            assert((N as nat) * T::const_song_len() == 0) by (nonlinear_arith)
                requires
                    N == 0,
            ;
            return true;
        }
        if !T::const_song_fits(len) {
            proof {
                assert(T::const_song_len() <= N * T::const_song_len()) by (nonlinear_arith)
                    requires
                        N > 0,
                ;
            }
            return false;
        }
        let c = T::const_song_size();
        if c == 0 {
            assert((N as nat) * T::const_song_len() == 0) by (nonlinear_arith)
                requires
                    T::const_song_len() == 0,
            ;
            return true;
        }
        let fits = N <= len / c;
        proof {
            let q = len / c;
            assert(fits == (N * c <= len)) by (nonlinear_arith)
                requires
                    c > 0,
                    q == len / c,
                    fits == (N <= q),
            ;
        }
        fits
    }

    proof fn lemma_const_song_len(v: &Self) {
        lemma_items_const_len(v@);
    }

    proof fn lemma_const_song_len_of_type() {
        assert(<MultiplyConstSongSizeImpl<
            ConstSongSizeImplFromConstSongSize<T>,
            ConstSongSizeValue<N>,
        > as SongSizeExpr>::size_value() == T::const_song_len() * N);
        assert(T::const_song_len() * N == N * T::const_song_len()) by (nonlinear_arith);
    }
}

impl<T: ToSong, const N: usize> ToSong for [T; N] {
    open spec fn song_bytes(&self) -> Seq<u8> {
        items_song_bytes(self@)
    }

    proof fn lemma_song_bytes_len(&self) {
        lemma_items_bytes_len(self@);
    }

    /// Writes the items one after the other; the first that does not fit ends the write.
    fn to_song_at(&self, buf: &mut [u8], pos: usize) -> (r: Result<(), ToSongError>) {
        let ghost start = buf@;
        proof {
            assert(start.len() == buf.len());
        }
        let mut off: usize = pos;
        let mut i: usize = 0;
        while i < N
            invariant
                0 <= i <= N,
                start == old(buf)@,
                start.len() <= usize::MAX,
                self@.len() == N,
                items_song_len(self@) <= usize::MAX,
                pos <= start.len(),
                buf@.len() == start.len(),
                off == pos + items_song_len(self@.take(i as int)),
                off <= start.len(),
                buf@ == start.take(pos as int) + items_song_bytes(self@.take(i as int))
                    + start.skip(off as int),
            decreases N - i,
        {
            proof {
                lemma_items_take_next(self@, i as int);
                lemma_items_bytes_len(self@.take(i as int));
                self[i as int].lemma_song_bytes_len();
            }
            let ghost before = buf@;
            match self[i].to_song_at(buf, off) {
                Ok(()) => {},
                Err(e) => {
                    proof {
                        assert(buf@.take(pos as int) =~= buf@.take(off as int).take(pos as int));
                        assert(before.take(pos as int) =~= before.take(off as int).take(
                            pos as int,
                        ));
                        assert(before.take(pos as int) =~= start.take(pos as int));
                    }
                    return Err(e);
                },
            }
            proof {
                lemma_write_after(
                    start,
                    before,
                    buf@,
                    pos as int,
                    items_song_bytes(self@.take(i as int)),
                    self[i as int].song_bytes(),
                );
            }
            off = off + self[i].song_size();
            i = i + 1;
        }
        proof {
            assert(self@.take(N as int) =~= self@);
            lemma_items_bytes_len(self@);
        }
        Ok(())
    }
}

impl<T: FromSong, const N: usize> FromSong for [T; N] {
    open spec fn song_parse(bytes: Seq<u8>) -> Result<[T; N], FromSongError> {
        match parse_items::<T>(bytes, N as nat) {
            Ok(items) => Ok(array_of::<T, N>(items)),
            Err(e) => Err(e),
        }
    }

    proof fn lemma_parse_len(bytes: Seq<u8>) {
        lemma_parse_items_len::<T>(bytes, N as nat);
        if let Ok(items) = parse_items::<T>(bytes, N as nat) {
            lemma_array_exists::<T, N>(items);
        }
    }

    /// Reads the items one after the other; the first that cannot be read gives the error.
    fn from_song_at(buf: &[u8], pos: usize) -> (r: Result<[T; N], FromSongError>) {
        let ghost b = buf@.skip(pos as int);
        proof {
            assert(buf@.len() == buf.len());
        }
        let mut items: Vec<T> = Vec::new();
        let mut off: usize = pos;
        let mut i: usize = 0;
        while i < N
            invariant
                0 <= i <= N,
                pos <= buf@.len(),
                buf@.len() <= usize::MAX,
                b == buf@.skip(pos as int),
                items@.len() == i,
                off == pos + items_song_len(items@),
                off <= buf@.len(),
                parse_items::<T>(b, N as nat) == match parse_items::<T>(
                    buf@.skip(off as int),
                    (N - i) as nat,
                ) {
                    Ok(rest) => Ok::<Seq<T>, FromSongError>(items@ + rest),
                    Err(e) => Err(e),
                },
            decreases N - i,
        {
            let ghost tail = buf@.skip(off as int);
            let v = match T::from_song_at(buf, off) {
                Ok(v) => v,
                Err(e) => {
                    proof {
                        assert(parse_items::<T>(tail, (N - i) as nat) == Err::<
                            Seq<T>,
                            FromSongError,
                        >(e));
                    }
                    return Err(e);
                },
            };
            proof {
                T::lemma_parse_len(tail);
                assert(buf@.skip(off + v.song_len()) =~= tail.skip(v.song_len() as int));
                lemma_items_len_split(items@, seq![v]);
                lemma_items_single_len(v);
                assert(items@ + (seq![v] + Seq::<T>::empty()) =~= items@.push(v));
                assert forall|rest: Seq<T>| #[trigger] (items@ + (seq![v] + rest)) == items@.push(v)
                    + rest by {
                    assert(items@ + (seq![v] + rest) =~= items@.push(v) + rest);
                }
            }
            off = off + v.song_size();
            items.push(v);
            i = i + 1;
        }
        proof {
            assert(parse_items::<T>(buf@.skip(off as int), 0) == Ok::<Seq<T>, FromSongError>(
                Seq::empty(),
            ));
            assert(items@ + Seq::<T>::empty() =~= items@);
        }
        match array_from_vec::<T, N>(items) {
            Ok(a) => {
                proof {
                    lemma_array_of::<T, N>(a, a@);
                }
                Ok(a)
            },
            Err(_) => {
                proof {
                    assert(false);
                }
                Err(FromSongError::BufferOverflow)
            },
        }
    }
}

impl<T: SongRoundTrip, const N: usize> SongRoundTrip for [T; N] {
    proof fn lemma_song_round_trip(&self, rest: Seq<u8>) {
        lemma_items_round_trip(self@, rest);
        lemma_array_of::<T, N>(*self, self@);
    }
}


/// The bytes of a run of bytes are the bytes themselves.
proof fn lemma_byte_items(s: Seq<u8>)
    ensures
        items_song_bytes(s) == s,
    decreases s.len(),
{
    if s.len() > 0 {
        lemma_byte_items(s.drop_first());
        assert(seq![s[0]] + s.drop_first() =~= s);
    }
}

/// An array of bytes is written as its bytes, in index order, and read back from them,
/// whatever follows.
pub proof fn lemma_byte_array_layout<const N: usize>(a: [u8; N], rest: Seq<u8>)
    ensures
        a.song_bytes() == a@,
        <[u8; N] as FromSong>::song_parse(a@ + rest) == Ok::<[u8; N], FromSongError>(a),
{
    lemma_byte_items(a@);
    a.lemma_song_round_trip(rest);
}

/// An array of fixed-size items is written as its items in index order with nothing between
/// them: item `i` takes the bytes from `i * size` to `(i + 1) * size`.
pub proof fn lemma_array_item_layout<T: ConstSongSize + ToSong, const N: usize>(a: [T; N], i: int)
    requires
        0 <= i < N,
    ensures
        a.song_bytes().len() == N * T::const_song_len(),
        a.song_bytes().subrange(i * T::const_song_len(), (i + 1) * T::const_song_len())
            == a@[i].song_bytes(),
{
    let s = a@;
    let c = T::const_song_len();
    let x = s[i];
    assert(s =~= s.take(i) + (seq![x] + s.skip(i + 1)));
    lemma_items_concat(s.take(i), seq![x] + s.skip(i + 1));
    lemma_items_concat(seq![x], s.skip(i + 1));
    lemma_items_single(x);
    lemma_items_const_len(s.take(i));
    lemma_items_bytes_len(s.take(i));
    lemma_items_bytes_len(s);
    lemma_items_const_len(s);
    T::lemma_const_song_len(&x);
    x.lemma_song_bytes_len();
    assert(i * c + c == (i + 1) * c) by (nonlinear_arith);
    assert(N * c == s.len() * c);
    let b = a.song_bytes();
    assert(b == items_song_bytes(s.take(i)) + (x.song_bytes() + items_song_bytes(s.skip(i + 1))));
    assert(b.subrange(i * c, (i + 1) * c) =~= x.song_bytes());
}

} // verus!
