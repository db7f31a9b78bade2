use chrono::Datelike;
use vstd::prelude::*;

verus! {

/// What `str::to_lowercase` makes of a sequence of characters.
pub uninterp spec fn minusculas_de(s: Seq<char>) -> Seq<char>;

/// Relies on uuid::Uuid::new_v4: a random version-4 identifier, taken as
/// its 128-bit value. Nothing is known of the value drawn.
#[verifier::external_body]
pub(crate) fn novo_id() -> (r: u128) {
    uuid::Uuid::new_v4().as_u128()
}

/// Relies on chrono's Local::now, DateTime::date_naive and
/// Datelike::num_days_from_ce: today's local date as a day number, where
/// 0001-01-01 is day 1. The number comes from an `i32`.
#[verifier::external_body]
pub(crate) fn dia_de_hoje() -> (r: i64)
    ensures
        i32::MIN <= r <= i32::MAX,
{
    chrono::Local::now().date_naive().num_days_from_ce() as i64
}

/// Relies on str::to_lowercase: the lowercase form depends on the
/// characters alone.
#[verifier::external_body]
pub(crate) fn minusculas(s: &str) -> (r: String)
    ensures
        r@ == minusculas_de(s@),
{
    s.to_lowercase()
}

/// Compares two texts that are already in lowercase form.
pub fn mesma_forma(a: &String, b: &String) -> (r: bool)
    ensures
        r == (a@ == b@),
{
    a.eq(b)
}

/// Case-insensitive exact match of `texto` against `consulta`.
pub fn corresponde(texto: &str, consulta: &str) -> (r: bool)
    ensures
        r == (minusculas_de(texto@) == minusculas_de(consulta@)),
{
    let a = minusculas(texto);
    let b = minusculas(consulta);
    mesma_forma(&a, &b)
}

} // verus!
