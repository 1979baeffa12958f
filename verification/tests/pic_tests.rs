use trapcore::pic::{clear_irq_mask, set_irq_mask, PicMasks};

#[test]
fn set_mask_sets_exactly_the_target_bit_primary() {
    let mut m = PicMasks { primary: 0b1010_1010, secondary: 0b0101_0101 };
    set_irq_mask(&mut m, 0);
    assert_eq!(m.primary, 0b1010_1011);
    assert_eq!(m.secondary, 0b0101_0101);
}

#[test]
fn set_mask_rebases_secondary_lines_by_eight() {
    let mut m = PicMasks { primary: 0x00, secondary: 0x00 };
    set_irq_mask(&mut m, 8);
    assert_eq!(m.primary, 0x00);
    assert_eq!(m.secondary, 0x01);
    set_irq_mask(&mut m, 15);
    assert_eq!(m.secondary, 0x81);
}

#[test]
fn clear_mask_clears_exactly_the_target_bit() {
    let mut m = PicMasks { primary: 0b1010_1010, secondary: 0b1111_1111 };
    clear_irq_mask(&mut m, 1);
    assert_eq!(m.primary, 0b1010_1000);
    assert_eq!(m.secondary, 0b1111_1111);
    clear_irq_mask(&mut m, 9);
    assert_eq!(m.secondary, 0b1111_1101);
}

#[test]
fn set_then_clear_restores_unmasked_lines_for_every_irq() {
    for irq in 0u8..16 {
        // Start from an image where the target line is unmasked.
        let bit = 1u8 << (irq % 8);
        let before = if irq < 8 {
            PicMasks { primary: 0b1010_1010 & !bit, secondary: 0b0101_0101 }
        } else {
            PicMasks { primary: 0b1010_1010, secondary: 0b0101_0101 & !bit }
        };
        let mut m = before;
        set_irq_mask(&mut m, irq);
        clear_irq_mask(&mut m, irq);
        assert_eq!(m, before);
    }
}

#[test]
fn set_then_clear_leaves_every_other_bit_unchanged() {
    for irq in 0u8..16 {
        let before = PicMasks { primary: 0b1100_0011, secondary: 0b0011_1100 };
        let mut m = before;
        set_irq_mask(&mut m, irq);
        clear_irq_mask(&mut m, irq);
        let target = 1u8 << (irq % 8);
        if irq < 8 {
            assert_eq!(m.primary & !target, before.primary & !target);
            assert_eq!(m.secondary, before.secondary);
        } else {
            assert_eq!(m.primary, before.primary);
            assert_eq!(m.secondary & !target, before.secondary & !target);
        }
    }
}
