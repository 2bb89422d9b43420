//! The batch forms, written out: each test holds the plain code that a
//! batch of operations stands for.

#[test]
fn it_works() {
    let x = 4 == 2 || 4 > 3;
    assert!(x);

    let mut a = 1;
    a = a + 1;
    a = 2 - a;
    a = a + 3;
    assert_eq!(a, 3);
}

#[test]
fn test_batch() {
    let x = 1 < 5 || 1 < 6 || 1 < 7 || 0 < 1;
    assert!(x)
}

#[test]
fn test_let() {
    let a: u8 = 1;
    let b = 2;
    assert_eq!(a, 1);
    assert_eq!(b, 2);
}

#[allow(unused_variables)]
#[allow(unreachable_code)]
#[allow(clippy::never_loop)]
#[test]
fn test_match() {
    let a = Some(1);
    let b = Some(2);

    let first: i32 = 'a: loop {
        if let Some(va) = a {
            if let Some(vb) = b {
                break 'a {
                    println!("some {} {}", va, vb);
                    1
                };
            }
        }
        break 'a { 2 };
    };
    assert_eq!(first, 1);

    let second: bool = 'b: loop {
        if let Some(va) = a {
            if let Some(vb) = b {
                {
                    println!("some {} {}", va, vb);
                    1
                };
                break 'b true;
            }
        }
        {
            2
        };
        break 'b false;
    };
    assert!(second);

    let third: i32 = if let Some(va) = a {
        if let Some(vb) = b {
            println!("some {} {}", va, vb);
            1
        } else {
            2
        }
    } else {
        2
    };
    assert_eq!(third, 1);

    let fourth: bool = if let Some(va) = a {
        if let Some(vb) = b {
            {
                println!("some {} {}", va, vb);
                1
            };
            true
        } else {
            {
                2
            };
            false
        }
    } else {
        {
            2
        };
        false
    };
    assert!(fourth);
}

#[test]
fn test_in() {
    let r = 0..5;
    let c = r.contains(&1) && r.contains(&2);
    assert!(c);
}

#[allow(unused_variables)]
#[test]
fn test_using() {
    let v = (1, 2);
    let v2 = (3, 4);
    {
        let (a, b) = v;
        let (c, d) = v2;
        {
            println!("{} {} {} {}", a, b, c, d)
        }
    }
}
