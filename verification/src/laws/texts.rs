//! Addresses and error texts.
use vstd::prelude::*;

use crate::addr::{IpAddr, SocketAddr};
use crate::calls::BindCall;
use crate::error;
use crate::error::{code_text, Error, ErrorKind};

verus! {

/// The parts of an address are the address and the port that it was written with.
pub proof fn law_address_has_its_parts(addr: SocketAddr, ip: IpAddr, port: u16)
    requires
        call_ensures(SocketAddr::ip, (&addr,), ip),
        call_ensures(SocketAddr::port, (&addr,), port),
    ensures
        match addr {
            SocketAddr::V4 { ip: number, port: own } => ip == IpAddr::V4(number) && port == own,
            SocketAddr::V6 { ip: number, port: own, .. } => ip == IpAddr::V6(number) && port
                == own,
        },
{
}

/// What is bound to an address is bound to the address and the port that it has; what is
/// bound to any address has none, and the port that lets lwIP choose.
pub proof fn law_bind_is_to_the_address(
    addr: SocketAddr,
    ip: IpAddr,
    port: u16,
    to: BindCall,
    any: BindCall,
)
    requires
        call_ensures(SocketAddr::ip, (&addr,), ip),
        call_ensures(SocketAddr::port, (&addr,), port),
        call_ensures(BindCall::to, (&addr,), to),
        call_ensures(BindCall::any, (), any),
    ensures
        to.addr == Some(ip),
        to.port == port,
        any.addr is None,
        any.port == 0,
{
}

/// The decimal digits of a number of up to three digits.
proof fn lemma_digits(n: nat)
    requires
        n < 1000,
    ensures
        n < 10 ==> error::digits(n) == seq![error::digit(n)],
        10 <= n < 100 ==> error::digits(n) == seq![error::digit(n / 10), error::digit(n % 10)],
        100 <= n ==> error::digits(n) == seq![
            error::digit(n / 100),
            error::digit(n / 10 % 10),
            error::digit(n % 10),
        ],
{
    reveal_with_fuel(error::digits, 3);
    if n >= 100 {
        assert(error::digits(n / 100) == seq![error::digit(n / 100)]);
        assert(n / 10 / 10 == n / 100);
        assert(error::digits(n / 10) =~= seq![error::digit(n / 100), error::digit(n / 10 % 10)]);
        assert(error::digits(n) =~= seq![
            error::digit(n / 100),
            error::digit(n / 10 % 10),
            error::digit(n % 10),
        ]);
    } else if n >= 10 {
        assert(error::digits(n) =~= seq![error::digit(n / 10), error::digit(n % 10)]);
    }
}

/// The text of a code can be read back: it is a minus sign, where the code is negative, and
/// then from one to three decimal digits that stand for the number, without a zero that
/// could be left out.
pub proof fn law_code_can_be_read_back(err: i8, text: String)
    requires
        call_ensures(code_text, (err,), text),
    ensures
        ({
            let sign: int = if err < 0 {
                1
            } else {
                0
            };
            let size: int = if err < 0 {
                -(err as int)
            } else {
                err as int
            };
            let digits = text@.skip(sign);
            &&& sign <= text@.len()
            &&& err < 0 ==> text@[0] == '-'
            &&& 1 <= digits.len() <= 3
            &&& forall|i: int| 0 <= i < digits.len() ==> 48 <= #[trigger] digits[i] as int <= 57
            &&& digits.len() > 1 ==> digits[0] as int != 48
            &&& digits.len() == 1 ==> size == digits[0] as int - 48
            &&& digits.len() == 2 ==> size == 10 * (digits[0] as int - 48) + (digits[1] as int
                - 48)
            &&& digits.len() == 3 ==> size == 100 * (digits[0] as int - 48) + 10 * (
            digits[1] as int - 48) + (digits[2] as int - 48)
        }),
{
    let size: int = if err < 0 {
        -(err as int)
    } else {
        err as int
    };
    lemma_digits(size as nat);
    if err < 0 {
        assert(text@.skip(1) =~= error::digits(size as nat));
    } else {
        assert(text@.skip(0) =~= error::digits(size as nat));
    }
}

/// An error has the kind and the text that it was made with; one that was made with a
/// code has the text of the code behind it.
pub proof fn law_error_says_what_it_was_made_with(
    kind: ErrorKind,
    what: &str,
    plain: Error,
    err: i8,
    text: String,
    coded: Error,
)
    requires
        call_ensures(Error::new, (kind, what), plain),
        call_ensures(code_text, (err,), text),
        call_ensures(Error::with_code, (kind, what, err), coded),
    ensures
        plain.kind == kind,
        plain.message@ == what@,
        coded.kind == kind,
        coded.message@ == what@ + text@,
{
}

} // verus!
