use libsugar::arity::iter_arities;
use libsugar::tuple_iter::{InsufficientElements, TupleFromIter, TupleIntoIter, TupleIter};
use libsugar::tuple_utils::{
    Same10, Same11, Same12, Same13, Same14, Same15, Same16, Same17, Same18, Same19, Same2, Same20,
    Same21, Same22, Same23, Same24, Same25, Same26, Same27, Same28, Same29, Same3, Same30, Same31,
    Same32, Same4, Same5, Same6, Same7, Same8, Same9, Tuple, TupleSame,
};

/// Builds the tuple of type `S` from the numbers 0, 1, 2 and so on, and
/// holds every operation of the iteration families against them. `by_ref`
/// is the walk over the tuple by reference. Returns the size of the tuple.
fn exercise<S>(by_ref: fn(&S) -> Vec<u32>) -> usize
where
    S: Tuple + TupleSame<u32> + TupleFromIter<u32> + TupleIntoIter,
    <S as TupleIntoIter>::Iter: Iterator<Item = u32>,
{
    let mut source = 0u32..;
    let t: S = match S::from_iter(&mut source) {
        Ok(t) => t,
        Err(e) => panic!("{:?}", e),
    };
    let n = t.size();
    let expected: Vec<u32> = (0..n as u32).collect();
    assert_eq!(source.next(), Some(n as u32));

    for i in 0..n {
        assert_eq!(t.get(i), Some(&(i as u32)));
    }
    assert_eq!(t.get(n), None);

    assert_eq!(by_ref(&t), expected);

    let from_exact = match S::from_vec(expected.clone()) {
        Ok(t) => t,
        Err(e) => panic!("{:?}", e),
    };
    assert_eq!(by_ref(&from_exact), expected);

    let mut longer = expected.clone();
    longer.push(1000);
    let from_longer = match S::from_vec(longer) {
        Ok(t) => t,
        Err(e) => panic!("{:?}", e),
    };
    assert_eq!(by_ref(&from_longer), expected);

    let mut shorter = expected.clone();
    shorter.pop();
    match S::from_vec(shorter.clone()) {
        Ok(_) => panic!("a tuple from too few items"),
        Err(e) => assert_eq!(e, InsufficientElements { needed: n, found: n - 1 }),
    }
    match S::from_iter(&mut shorter.into_iter()) {
        Ok(_) => panic!("a tuple from too few items"),
        Err(e) => assert_eq!(e, InsufficientElements { needed: n, found: n - 1 }),
    }

    let mut owning = t.into_iter();
    let back: S = match S::from_iter(&mut owning) {
        Ok(t) => t,
        Err(e) => panic!("{:?}", e),
    };
    assert_eq!(owning.next(), None);
    let by_value: Vec<u32> = back.into_iter().collect();
    assert_eq!(by_value, expected);
    n
}

#[test]
fn every_arity_iterates_and_comes_back() {
    let sizes = vec![
        exercise::<Same2<u32>>(|t| t.iter().copied().collect()),
        exercise::<Same3<u32>>(|t| t.iter().copied().collect()),
        exercise::<Same4<u32>>(|t| t.iter().copied().collect()),
        exercise::<Same5<u32>>(|t| t.iter().copied().collect()),
        exercise::<Same6<u32>>(|t| t.iter().copied().collect()),
        exercise::<Same7<u32>>(|t| t.iter().copied().collect()),
        exercise::<Same8<u32>>(|t| t.iter().copied().collect()),
        exercise::<Same9<u32>>(|t| t.iter().copied().collect()),
        exercise::<Same10<u32>>(|t| t.iter().copied().collect()),
        exercise::<Same11<u32>>(|t| t.iter().copied().collect()),
        exercise::<Same12<u32>>(|t| t.iter().copied().collect()),
        exercise::<Same13<u32>>(|t| t.iter().copied().collect()),
        exercise::<Same14<u32>>(|t| t.iter().copied().collect()),
        exercise::<Same15<u32>>(|t| t.iter().copied().collect()),
        exercise::<Same16<u32>>(|t| t.iter().copied().collect()),
        exercise::<Same17<u32>>(|t| t.iter().copied().collect()),
        exercise::<Same18<u32>>(|t| t.iter().copied().collect()),
        exercise::<Same19<u32>>(|t| t.iter().copied().collect()),
        exercise::<Same20<u32>>(|t| t.iter().copied().collect()),
        exercise::<Same21<u32>>(|t| t.iter().copied().collect()),
        exercise::<Same22<u32>>(|t| t.iter().copied().collect()),
        exercise::<Same23<u32>>(|t| t.iter().copied().collect()),
        exercise::<Same24<u32>>(|t| t.iter().copied().collect()),
        exercise::<Same25<u32>>(|t| t.iter().copied().collect()),
        exercise::<Same26<u32>>(|t| t.iter().copied().collect()),
        exercise::<Same27<u32>>(|t| t.iter().copied().collect()),
        exercise::<Same28<u32>>(|t| t.iter().copied().collect()),
        exercise::<Same29<u32>>(|t| t.iter().copied().collect()),
        exercise::<Same30<u32>>(|t| t.iter().copied().collect()),
        exercise::<Same31<u32>>(|t| t.iter().copied().collect()),
        exercise::<Same32<u32>>(|t| t.iter().copied().collect()),
    ];
    assert_eq!(sizes, iter_arities());
}
